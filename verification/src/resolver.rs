//! The host ISA capability resolver.
//!
//! Given the target triple and the hardware probe reports, the resolver
//! looks up the code-generation backend for the triple's architecture
//! family, enforces that family's mandatory baseline, and — unless asked to
//! skip optional detection — writes one capability flag per probed
//! extension into the backend builder. The builder is never returned with a
//! flag enabled that the probes did not report present, and never returned
//! at all when the mandatory baseline is unmet.

use vstd::prelude::*;

use crate::backend::{
    arch_of, builder_arch, builder_settings, default_settings, host_triple, isa_lookup, isa_set,
    triple_arch, HostIsaBuilder,
};
use crate::probes::{s390x_vxrs_ext2, Arch, HostProbes, X86Features, HWCAP_S390X_VXRS_EXT2};

verus! {

/// Why no configured backend builder could be produced.
#[derive(Clone, Copy, Debug, PartialEq, Eq, Structural)]
pub enum ResolveError {
    /// The architecture family is known, but its backend was not compiled
    /// into this build.
    SupportDisabled,
    /// No backend implementation is known for the architecture family.
    Unsupported,
    /// The architecture's mandatory baseline extension is absent on this
    /// machine.
    BaselineMissing,
}

impl ResolveError {
    /// A human-readable description of the failure.
    pub fn message(&self) -> (m: &'static str)
        ensures
            *self == ResolveError::SupportDisabled
                ==> m@ == "support for architecture disabled at compile time"@,
            *self == ResolveError::Unsupported ==> m@ == "unsupported architecture"@,
            *self == ResolveError::BaselineMissing ==> m@ == "x86 support requires SSE2"@,
    {
        match self {
            ResolveError::SupportDisabled => "support for architecture disabled at compile time",
            ResolveError::Unsupported => "unsupported architecture",
            ResolveError::BaselineMissing => "x86 support requires SSE2",
        }
    }
}

/// The two-valued convention for writing a capability into the builder:
/// present extensions are enabled with "1", absent ones disabled with "0".
pub open spec fn bool_setting(present: bool) -> Seq<char> {
    if present {
        "1"@
    } else {
        "0"@
    }
}

/// The capability-flag names the resolver may write for an architecture
/// family. Every name is a boolean setting of that family's backend.
pub open spec fn flag_known(a: Arch, name: Seq<char>) -> bool {
    match a {
        Arch::X86 => name == "has_sse3"@ || name == "has_ssse3"@ || name == "has_sse41"@
            || name == "has_sse42"@ || name == "has_popcnt"@ || name == "has_avx"@
            || name == "has_avx2"@ || name == "has_bmi1"@ || name == "has_bmi2"@
            || name == "has_avx512bitalg"@ || name == "has_avx512dq"@ || name == "has_avx512f"@
            || name == "has_avx512vl"@ || name == "has_avx512vbmi"@ || name == "has_lzcnt"@,
        Arch::Aarch64 => name == "has_lse"@,
        Arch::S390x => name == "has_vxrs_ext2"@ || name == "has_mie3"@,
        _ => false,
    }
}

/// Whether the architecture's mandatory baseline is satisfied by the probe
/// reports. Only x86 has a mandatory baseline: SSE2.
pub open spec fn baseline_ok(a: Arch, p: HostProbes) -> bool {
    a == Arch::X86 ==> p.x86.sse2
}

/// The settings map after the x86 optional capability flags have been
/// written over the base state `s0`, in probe order.
pub open spec fn x86_flag_settings(s0: Map<Seq<char>, Seq<char>>, f: X86Features) -> Map<
    Seq<char>,
    Seq<char>,
> {
    s0.insert("has_sse3"@, bool_setting(f.sse3))
        .insert("has_ssse3"@, bool_setting(f.ssse3))
        .insert("has_sse41"@, bool_setting(f.sse41))
        .insert("has_sse42"@, bool_setting(f.sse42))
        .insert("has_popcnt"@, bool_setting(f.popcnt))
        .insert("has_avx"@, bool_setting(f.avx))
        .insert("has_avx2"@, bool_setting(f.avx2))
        .insert("has_bmi1"@, bool_setting(f.bmi1))
        .insert("has_bmi2"@, bool_setting(f.bmi2))
        .insert("has_avx512bitalg"@, bool_setting(f.avx512bitalg))
        .insert("has_avx512dq"@, bool_setting(f.avx512dq))
        .insert("has_avx512f"@, bool_setting(f.avx512f))
        .insert("has_avx512vl"@, bool_setting(f.avx512vl))
        .insert("has_avx512vbmi"@, bool_setting(f.avx512vbmi))
        .insert("has_lzcnt"@, bool_setting(f.lzcnt))
}

/// The settings map after optional capability detection over the base
/// state `s0`: unchanged when detection is skipped or the family has no
/// probes, else one entry per probed extension of the family.
///
/// On S390x the second flag, `has_mie3`, has no probe of its own: it is
/// inferred from the vector-extension probe, on the grounds that no
/// deployed machine has one facility without the other.
pub open spec fn configured_settings(
    s0: Map<Seq<char>, Seq<char>>,
    a: Arch,
    p: HostProbes,
    infer: bool,
) -> Map<Seq<char>, Seq<char>> {
    if !infer {
        s0
    } else {
        match a {
            Arch::X86 => x86_flag_settings(s0, p.x86),
            Arch::Aarch64 => s0.insert("has_lse"@, bool_setting(p.aarch64.lse)),
            Arch::S390x => {
                let vxrs_ext2 = s390x_vxrs_ext2(p.s390x.hwcap);
                s0.insert("has_vxrs_ext2"@, bool_setting(vxrs_ext2)).insert(
                    "has_mie3"@,
                    bool_setting(vxrs_ext2),
                )
            },
            _ => s0,
        }
    }
}

/// What configuring a builder in base state `s0` for architecture `a` must
/// yield: the baseline check comes first and is never skipped; only when it
/// passes is the (possibly skipped) optional detection applied.
pub open spec fn resolve_outcome(
    s0: Map<Seq<char>, Seq<char>>,
    a: Arch,
    p: HostProbes,
    infer: bool,
) -> Result<Map<Seq<char>, Seq<char>>, ResolveError> {
    if baseline_ok(a, p) {
        Ok(configured_settings(s0, a, p, infer))
    } else {
        Err(ResolveError::BaselineMissing)
    }
}

/// What resolving a target of architecture `a` must yield end to end:
/// a failure for an architecture no backend can serve — the unrecognized
/// families, and the big-endian ARM variant the backend refuses — else
/// the outcome of configuring that family's freshly looked-up builder.
pub open spec fn resolution(a: Arch, p: HostProbes, infer: bool) -> Result<
    Map<Seq<char>, Seq<char>>,
    ResolveError,
> {
    match a {
        Arch::Aarch64Be | Arch::Other => Err(ResolveError::Unsupported),
        _ => resolve_outcome(default_settings(a), a, p, infer),
    }
}

/// The executable form of the boolean-to-setting convention.
fn bool_value(present: bool) -> (s: &'static str)
    ensures
        s@ == bool_setting(present),
{
    if present {
        "1"
    } else {
        "0"
    }
}

/// Enforce the mandatory baseline of `arch` and, unless
/// `infer_native_flags` is false, write one capability flag per probed
/// extension of `arch` into the builder.
pub fn configure_builder(
    b: &mut HostIsaBuilder,
    arch: Arch,
    probes: &HostProbes,
    infer_native_flags: bool,
) -> (r: Result<(), ResolveError>)
    requires
        arch == builder_arch(*old(b)),
    ensures
        builder_arch(*final(b)) == builder_arch(*old(b)),
        match resolve_outcome(builder_settings(*old(b)), arch, *probes, infer_native_flags) {
            Ok(m) => r is Ok && builder_settings(*final(b)) == m,
            Err(e) => r == Err::<(), ResolveError>(e) && builder_settings(*final(b))
                == builder_settings(*old(b)),
        },
{
    match arch {
        Arch::X86 => {
            if !probes.x86.sse2 {
                return Err(ResolveError::BaselineMissing);
            }
            if !infer_native_flags {
                return Ok(());
            }
            isa_set(b, "has_sse3", bool_value(probes.x86.sse3));
            isa_set(b, "has_ssse3", bool_value(probes.x86.ssse3));
            isa_set(b, "has_sse41", bool_value(probes.x86.sse41));
            isa_set(b, "has_sse42", bool_value(probes.x86.sse42));
            isa_set(b, "has_popcnt", bool_value(probes.x86.popcnt));
            isa_set(b, "has_avx", bool_value(probes.x86.avx));
            isa_set(b, "has_avx2", bool_value(probes.x86.avx2));
            isa_set(b, "has_bmi1", bool_value(probes.x86.bmi1));
            isa_set(b, "has_bmi2", bool_value(probes.x86.bmi2));
            isa_set(b, "has_avx512bitalg", bool_value(probes.x86.avx512bitalg));
            isa_set(b, "has_avx512dq", bool_value(probes.x86.avx512dq));
            isa_set(b, "has_avx512f", bool_value(probes.x86.avx512f));
            isa_set(b, "has_avx512vl", bool_value(probes.x86.avx512vl));
            isa_set(b, "has_avx512vbmi", bool_value(probes.x86.avx512vbmi));
            isa_set(b, "has_lzcnt", bool_value(probes.x86.lzcnt));
            Ok(())
        },
        Arch::Aarch64 => {
            if !infer_native_flags {
                return Ok(());
            }
            isa_set(b, "has_lse", bool_value(probes.aarch64.lse));
            Ok(())
        },
        Arch::S390x => {
            if !infer_native_flags {
                return Ok(());
            }
            let vxrs_ext2: bool = probes.s390x.hwcap & HWCAP_S390X_VXRS_EXT2 != 0;
            isa_set(b, "has_vxrs_ext2", bool_value(vxrs_ext2));
            isa_set(b, "has_mie3", bool_value(vxrs_ext2));
            Ok(())
        },
        Arch::Riscv64 | Arch::Pulley | Arch::Aarch64Be | Arch::Other => Ok(()),
    }
}

/// Resolve a backend builder for an explicit target triple from the given
/// probe reports: look the architecture's backend up, enforce its
/// mandatory baseline, and apply optional capability detection.
pub fn builder_for_target(
    target: target_lexicon::Triple,
    probes: &HostProbes,
    infer_native_flags: bool,
) -> (r: Result<HostIsaBuilder, ResolveError>)
    ensures
        match resolution(arch_of(target), *probes, infer_native_flags) {
            Ok(m) => r matches Ok(b) && builder_arch(b) == arch_of(target) && builder_settings(b)
                == m,
            Err(e) => r == Err::<HostIsaBuilder, ResolveError>(e),
        },
{
    let arch = triple_arch(&target);
    let mut b = match isa_lookup(target) {
        Ok(b) => b,
        Err(e) => {
            return Err(e);
        },
    };
    match configure_builder(&mut b, arch, probes, infer_native_flags) {
        Ok(()) => Ok(b),
        Err(e) => Err(e),
    }
}

/// Resolve a backend builder for the machine this process runs on, from
/// the given probe reports, optionally skipping optional-capability
/// detection. The mandatory-baseline check is never skipped.
pub fn builder_with_options(probes: &HostProbes, infer_native_flags: bool) -> (r: Result<
    HostIsaBuilder,
    ResolveError,
>)
    ensures
        r matches Ok(b) ==> resolution(builder_arch(b), *probes, infer_native_flags) == Ok::<
            Map<Seq<char>, Seq<char>>,
            ResolveError,
        >(builder_settings(b)),
        r matches Ok(b) ==> baseline_ok(builder_arch(b), *probes),
        r matches Err(e) && e == ResolveError::BaselineMissing ==> !probes.x86.sse2,
        r matches Err(e) ==> e != ResolveError::SupportDisabled,
{
    let t = host_triple();
    builder_for_target(t, probes, infer_native_flags)
}

/// Resolve a backend builder for the machine this process runs on with
/// full optional-capability detection.
pub fn builder(probes: &HostProbes) -> (r: Result<HostIsaBuilder, ResolveError>)
    ensures
        r matches Ok(b) ==> resolution(builder_arch(b), *probes, true) == Ok::<
            Map<Seq<char>, Seq<char>>,
            ResolveError,
        >(builder_settings(b)),
        r matches Ok(b) ==> baseline_ok(builder_arch(b), *probes),
        r matches Err(e) && e == ResolveError::BaselineMissing ==> !probes.x86.sse2,
        r matches Err(e) ==> e != ResolveError::SupportDisabled,
{
    builder_with_options(probes, true)
}

/// Law: no false capability claims on x86. After full detection, every
/// optional x86 capability flag holds exactly the value its hardware probe
/// reported — a flag can be enabled only when the probe confirmed the
/// extension present.
#[verifier::rlimit(50)]
pub proof fn lemma_x86_flags_match_probes(s0: Map<Seq<char>, Seq<char>>, p: HostProbes)
    ensures
        configured_settings(s0, Arch::X86, p, true)["has_sse3"@] == bool_setting(p.x86.sse3),
        configured_settings(s0, Arch::X86, p, true)["has_ssse3"@] == bool_setting(p.x86.ssse3),
        configured_settings(s0, Arch::X86, p, true)["has_sse41"@] == bool_setting(p.x86.sse41),
        configured_settings(s0, Arch::X86, p, true)["has_sse42"@] == bool_setting(p.x86.sse42),
        configured_settings(s0, Arch::X86, p, true)["has_popcnt"@] == bool_setting(p.x86.popcnt),
        configured_settings(s0, Arch::X86, p, true)["has_avx"@] == bool_setting(p.x86.avx),
        configured_settings(s0, Arch::X86, p, true)["has_avx2"@] == bool_setting(p.x86.avx2),
        configured_settings(s0, Arch::X86, p, true)["has_bmi1"@] == bool_setting(p.x86.bmi1),
        configured_settings(s0, Arch::X86, p, true)["has_bmi2"@] == bool_setting(p.x86.bmi2),
        configured_settings(s0, Arch::X86, p, true)["has_avx512bitalg"@] == bool_setting(
            p.x86.avx512bitalg,
        ),
        configured_settings(s0, Arch::X86, p, true)["has_avx512dq"@] == bool_setting(
            p.x86.avx512dq,
        ),
        configured_settings(s0, Arch::X86, p, true)["has_avx512f"@] == bool_setting(p.x86.avx512f),
        configured_settings(s0, Arch::X86, p, true)["has_avx512vl"@] == bool_setting(
            p.x86.avx512vl,
        ),
        configured_settings(s0, Arch::X86, p, true)["has_avx512vbmi"@] == bool_setting(
            p.x86.avx512vbmi,
        ),
        configured_settings(s0, Arch::X86, p, true)["has_lzcnt"@] == bool_setting(p.x86.lzcnt),
{
    // The reveals pin each flag name's characters; the assertions record
    // that the fifteen names are pairwise distinct, so that looking one
    // name up walks past the insertions of all the others.
    reveal_strlit("has_sse3");
    reveal_strlit("has_ssse3");
    reveal_strlit("has_sse41");
    reveal_strlit("has_sse42");
    reveal_strlit("has_popcnt");
    reveal_strlit("has_avx");
    reveal_strlit("has_avx2");
    reveal_strlit("has_bmi1");
    reveal_strlit("has_bmi2");
    reveal_strlit("has_avx512bitalg");
    reveal_strlit("has_avx512dq");
    reveal_strlit("has_avx512f");
    reveal_strlit("has_avx512vl");
    reveal_strlit("has_avx512vbmi");
    reveal_strlit("has_lzcnt");
    assert("has_sse3"@.len() == 8);
    assert("has_ssse3"@.len() == 9);
    assert("has_sse41"@.len() == 9);
    assert("has_sse42"@.len() == 9);
    assert("has_popcnt"@.len() == 10);
    assert("has_avx"@.len() == 7);
    assert("has_avx2"@.len() == 8);
    assert("has_bmi1"@.len() == 8);
    assert("has_bmi2"@.len() == 8);
    assert("has_avx512bitalg"@.len() == 16);
    assert("has_avx512dq"@.len() == 12);
    assert("has_avx512f"@.len() == 11);
    assert("has_avx512vl"@.len() == 12);
    assert("has_avx512vbmi"@.len() == 14);
    assert("has_lzcnt"@.len() == 9);
    assert("has_sse3"@[4] == 's');
    assert("has_avx2"@[4] == 'a');
    assert("has_bmi1"@[4] == 'b');
    assert("has_bmi2"@[4] == 'b');
    assert("has_ssse3"@[6] == 's');
    assert("has_sse41"@[6] == 'e');
    assert("has_sse42"@[6] == 'e');
    assert("has_ssse3"@[4] == 's');
    assert("has_lzcnt"@[4] == 'l');
    assert("has_sse41"@[8] == '1');
    assert("has_sse42"@[8] == '2');
    assert("has_sse41"@[4] == 's');
    assert("has_sse42"@[4] == 's');
    assert("has_bmi1"@[7] == '1');
    assert("has_bmi2"@[7] == '2');
    assert("has_avx512dq"@[10] == 'd');
    assert("has_avx512vl"@[10] == 'v');
    assert("has_sse3"@ != "has_ssse3"@);
    assert("has_sse3"@ != "has_sse41"@);
    assert("has_sse3"@ != "has_sse42"@);
    assert("has_sse3"@ != "has_popcnt"@);
    assert("has_sse3"@ != "has_avx"@);
    assert("has_sse3"@ != "has_avx2"@);
    assert("has_sse3"@ != "has_bmi1"@);
    assert("has_sse3"@ != "has_bmi2"@);
    assert("has_sse3"@ != "has_avx512bitalg"@);
    assert("has_sse3"@ != "has_avx512dq"@);
    assert("has_sse3"@ != "has_avx512f"@);
    assert("has_sse3"@ != "has_avx512vl"@);
    assert("has_sse3"@ != "has_avx512vbmi"@);
    assert("has_sse3"@ != "has_lzcnt"@);
    assert("has_ssse3"@ != "has_sse41"@);
    assert("has_ssse3"@ != "has_sse42"@);
    assert("has_ssse3"@ != "has_popcnt"@);
    assert("has_ssse3"@ != "has_avx"@);
    assert("has_ssse3"@ != "has_avx2"@);
    assert("has_ssse3"@ != "has_bmi1"@);
    assert("has_ssse3"@ != "has_bmi2"@);
    assert("has_ssse3"@ != "has_avx512bitalg"@);
    assert("has_ssse3"@ != "has_avx512dq"@);
    assert("has_ssse3"@ != "has_avx512f"@);
    assert("has_ssse3"@ != "has_avx512vl"@);
    assert("has_ssse3"@ != "has_avx512vbmi"@);
    assert("has_ssse3"@ != "has_lzcnt"@);
    assert("has_sse41"@ != "has_sse42"@);
    assert("has_sse41"@ != "has_popcnt"@);
    assert("has_sse41"@ != "has_avx"@);
    assert("has_sse41"@ != "has_avx2"@);
    assert("has_sse41"@ != "has_bmi1"@);
    assert("has_sse41"@ != "has_bmi2"@);
    assert("has_sse41"@ != "has_avx512bitalg"@);
    assert("has_sse41"@ != "has_avx512dq"@);
    assert("has_sse41"@ != "has_avx512f"@);
    assert("has_sse41"@ != "has_avx512vl"@);
    assert("has_sse41"@ != "has_avx512vbmi"@);
    assert("has_sse41"@ != "has_lzcnt"@);
    assert("has_sse42"@ != "has_popcnt"@);
    assert("has_sse42"@ != "has_avx"@);
    assert("has_sse42"@ != "has_avx2"@);
    assert("has_sse42"@ != "has_bmi1"@);
    assert("has_sse42"@ != "has_bmi2"@);
    assert("has_sse42"@ != "has_avx512bitalg"@);
    assert("has_sse42"@ != "has_avx512dq"@);
    assert("has_sse42"@ != "has_avx512f"@);
    assert("has_sse42"@ != "has_avx512vl"@);
    assert("has_sse42"@ != "has_avx512vbmi"@);
    assert("has_sse42"@ != "has_lzcnt"@);
    assert("has_popcnt"@ != "has_avx"@);
    assert("has_popcnt"@ != "has_avx2"@);
    assert("has_popcnt"@ != "has_bmi1"@);
    assert("has_popcnt"@ != "has_bmi2"@);
    assert("has_popcnt"@ != "has_avx512bitalg"@);
    assert("has_popcnt"@ != "has_avx512dq"@);
    assert("has_popcnt"@ != "has_avx512f"@);
    assert("has_popcnt"@ != "has_avx512vl"@);
    assert("has_popcnt"@ != "has_avx512vbmi"@);
    assert("has_popcnt"@ != "has_lzcnt"@);
    assert("has_avx"@ != "has_avx2"@);
    assert("has_avx"@ != "has_bmi1"@);
    assert("has_avx"@ != "has_bmi2"@);
    assert("has_avx"@ != "has_avx512bitalg"@);
    assert("has_avx"@ != "has_avx512dq"@);
    assert("has_avx"@ != "has_avx512f"@);
    assert("has_avx"@ != "has_avx512vl"@);
    assert("has_avx"@ != "has_avx512vbmi"@);
    assert("has_avx"@ != "has_lzcnt"@);
    assert("has_avx2"@ != "has_bmi1"@);
    assert("has_avx2"@ != "has_bmi2"@);
    assert("has_avx2"@ != "has_avx512bitalg"@);
    assert("has_avx2"@ != "has_avx512dq"@);
    assert("has_avx2"@ != "has_avx512f"@);
    assert("has_avx2"@ != "has_avx512vl"@);
    assert("has_avx2"@ != "has_avx512vbmi"@);
    assert("has_avx2"@ != "has_lzcnt"@);
    assert("has_bmi1"@ != "has_bmi2"@);
    assert("has_bmi1"@ != "has_avx512bitalg"@);
    assert("has_bmi1"@ != "has_avx512dq"@);
    assert("has_bmi1"@ != "has_avx512f"@);
    assert("has_bmi1"@ != "has_avx512vl"@);
    assert("has_bmi1"@ != "has_avx512vbmi"@);
    assert("has_bmi1"@ != "has_lzcnt"@);
    assert("has_bmi2"@ != "has_avx512bitalg"@);
    assert("has_bmi2"@ != "has_avx512dq"@);
    assert("has_bmi2"@ != "has_avx512f"@);
    assert("has_bmi2"@ != "has_avx512vl"@);
    assert("has_bmi2"@ != "has_avx512vbmi"@);
    assert("has_bmi2"@ != "has_lzcnt"@);
    assert("has_avx512bitalg"@ != "has_avx512dq"@);
    assert("has_avx512bitalg"@ != "has_avx512f"@);
    assert("has_avx512bitalg"@ != "has_avx512vl"@);
    assert("has_avx512bitalg"@ != "has_avx512vbmi"@);
    assert("has_avx512bitalg"@ != "has_lzcnt"@);
    assert("has_avx512dq"@ != "has_avx512f"@);
    assert("has_avx512dq"@ != "has_avx512vl"@);
    assert("has_avx512dq"@ != "has_avx512vbmi"@);
    assert("has_avx512dq"@ != "has_lzcnt"@);
    assert("has_avx512f"@ != "has_avx512vl"@);
    assert("has_avx512f"@ != "has_avx512vbmi"@);
    assert("has_avx512f"@ != "has_lzcnt"@);
    assert("has_avx512vl"@ != "has_avx512vbmi"@);
    assert("has_avx512vl"@ != "has_lzcnt"@);
    assert("has_avx512vbmi"@ != "has_lzcnt"@);
}

/// Law: no false capability claims on 64-bit ARM. After full detection the
/// atomic-extension flag holds exactly the value its probe reported.
pub proof fn lemma_aarch64_flags_match_probes(s0: Map<Seq<char>, Seq<char>>, p: HostProbes)
    ensures
        configured_settings(s0, Arch::Aarch64, p, true)["has_lse"@] == bool_setting(
            p.aarch64.lse,
        ),
{
}

/// Law: no false capability claims on S390x. After full detection both the
/// vector-extension flag and the flag inferred from it hold the value of
/// the capability-vector bit.
pub proof fn lemma_s390x_flags_match_probes(s0: Map<Seq<char>, Seq<char>>, p: HostProbes)
    ensures
        configured_settings(s0, Arch::S390x, p, true)["has_vxrs_ext2"@] == bool_setting(
            s390x_vxrs_ext2(p.s390x.hwcap),
        ),
        configured_settings(s0, Arch::S390x, p, true)["has_mie3"@] == bool_setting(
            s390x_vxrs_ext2(p.s390x.hwcap),
        ),
{
    reveal_strlit("has_vxrs_ext2");
    reveal_strlit("has_mie3");
}

/// Law: detection touches nothing but its own flags. A setting whose name
/// the resolver never writes for the architecture is exactly as it was in
/// the base state, whatever the probes reported and whatever the mode.
pub proof fn lemma_untouched_flags_keep_default(
    s0: Map<Seq<char>, Seq<char>>,
    a: Arch,
    p: HostProbes,
    infer: bool,
    name: Seq<char>,
)
    requires
        !flag_known(a, name),
    ensures
        configured_settings(s0, a, p, infer).dom().contains(name) == s0.dom().contains(name),
        s0.dom().contains(name) ==> configured_settings(s0, a, p, infer)[name] == s0[name],
{
}

/// Law: baseline gating. When the x86 mandatory baseline is absent, the
/// resolution fails with the baseline-missing failure — in full and in
/// skip mode alike — and never yields a builder state.
pub proof fn lemma_baseline_gating(s0: Map<Seq<char>, Seq<char>>, p: HostProbes, infer: bool)
    requires
        !p.x86.sse2,
    ensures
        resolve_outcome(s0, Arch::X86, p, infer) == Err::<Map<Seq<char>, Seq<char>>, ResolveError>(
            ResolveError::BaselineMissing,
        ),
        resolution(Arch::X86, p, infer) == Err::<Map<Seq<char>, Seq<char>>, ResolveError>(
            ResolveError::BaselineMissing,
        ),
{
}

/// Law: mode independence of the baseline check. Whether optional
/// detection is performed or skipped, the outcome fails on exactly the
/// same inputs, with exactly the same failure; only the settings of a
/// successful outcome differ.
pub proof fn lemma_baseline_check_mode_independent(
    s0: Map<Seq<char>, Seq<char>>,
    a: Arch,
    p: HostProbes,
)
    ensures
        resolve_outcome(s0, a, p, true) is Err <==> resolve_outcome(s0, a, p, false) is Err,
        resolve_outcome(s0, a, p, true) is Err ==> resolve_outcome(s0, a, p, true)
            == resolve_outcome(s0, a, p, false),
{
}

/// Law: no optional flags under skip mode. When the baseline is satisfied
/// and optional detection is skipped, the outcome is the base state
/// itself, with no flag altered.
pub proof fn lemma_skip_mode_keeps_default(s0: Map<Seq<char>, Seq<char>>, a: Arch, p: HostProbes)
    requires
        baseline_ok(a, p),
    ensures
        resolve_outcome(s0, a, p, false) == Ok::<Map<Seq<char>, Seq<char>>, ResolveError>(s0),
{
}

/// Law: determinism. Two builders resolved for the same architecture
/// family from the same probe reports in the same mode carry identical
/// settings.
pub proof fn lemma_determinism(
    b1: HostIsaBuilder,
    b2: HostIsaBuilder,
    p: HostProbes,
    infer: bool,
)
    requires
        builder_arch(b1) == builder_arch(b2),
        resolution(builder_arch(b1), p, infer) == Ok::<Map<Seq<char>, Seq<char>>, ResolveError>(
            builder_settings(b1),
        ),
        resolution(builder_arch(b2), p, infer) == Ok::<Map<Seq<char>, Seq<char>>, ResolveError>(
            builder_settings(b2),
        ),
    ensures
        builder_settings(b1) == builder_settings(b2),
{
}

/// Law: unknown architectures never report a missing baseline. Outside the
/// x86 family the baseline-missing failure cannot arise: an architecture
/// no backend can serve — an unrecognized family, or the big-endian ARM
/// variant the backend refuses — fails as unrecognized, and every other
/// family resolves.
pub proof fn lemma_unknown_arch_failure(a: Arch, p: HostProbes, infer: bool)
    requires
        a != Arch::X86,
    ensures
        resolution(a, p, infer) != Err::<Map<Seq<char>, Seq<char>>, ResolveError>(
            ResolveError::BaselineMissing,
        ),
        a == Arch::Other || a == Arch::Aarch64Be ==> resolution(a, p, infer) == Err::<
            Map<Seq<char>, Seq<char>>,
            ResolveError,
        >(ResolveError::Unsupported),
        resolution(a, p, infer) is Err <==> a == Arch::Other || a == Arch::Aarch64Be,
{
}

} // verus!
