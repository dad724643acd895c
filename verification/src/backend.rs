//! The trusted boundary to the code-generation backend and to the target
//! identification of the running machine.
//!
//! Everything in this module is believed, not proved: each item's doc
//! comment names the outside function it relies on. The rest of the crate
//! reasons about these values only through the uninterpreted names
//! `arch_of`, `builder_arch`, `builder_settings` and `default_settings`.

use vstd::prelude::*;

use crate::probes::Arch;
use crate::resolver::{flag_known, ResolveError};
use cranelift_codegen::settings::Configurable;

verus! {

#[verifier::external_type_specification]
#[verifier::external_body]
pub struct ExTriple(target_lexicon::Triple);

/// A backend builder for one architecture family, with the capability
/// flags applied so far. Holds the backend's own builder object.
#[verifier::external_body]
pub struct HostIsaBuilder {
    inner: cranelift_codegen::isa::Builder,
}

/// A finished, executable backend, kept only so that what the resolver
/// produced can be inspected: its calling convention, pointer width and
/// flag values.
#[verifier::external_body]
pub struct FinishedIsa {
    inner: cranelift_codegen::isa::OwnedTargetIsa,
}

/// The architecture family a triple's architecture field falls in.
pub uninterp spec fn arch_of(t: target_lexicon::Triple) -> Arch;

/// The architecture family a builder was looked up for.
pub uninterp spec fn builder_arch(b: HostIsaBuilder) -> Arch;

/// The settings a builder holds, as a map from setting name to value.
pub uninterp spec fn builder_settings(b: HostIsaBuilder) -> Map<Seq<char>, Seq<char>>;

/// The settings a freshly looked-up builder of an architecture family
/// holds: that family's mandatory baseline state.
pub uninterp spec fn default_settings(a: Arch) -> Map<Seq<char>, Seq<char>>;

/// Relies on `target_lexicon::Triple::host`: the triple of the machine
/// this process runs on. Which machine that is cannot be promised, so
/// nothing is.
#[verifier::external_body]
pub fn host_triple() -> (t: target_lexicon::Triple) {
    target_lexicon::Triple::host()
}

/// Relies on reading `Triple::architecture`: returns the architecture
/// family tag the resolver dispatches on. The big-endian 64-bit ARM
/// variant gets a tag of its own, because the backend's aarch64 builder
/// accepts only the little-endian one.
#[verifier::external_body]
pub fn triple_arch(t: &target_lexicon::Triple) -> (a: Arch)
    ensures
        a == arch_of(*t),
{
    match t.architecture {
        target_lexicon::Architecture::X86_64 => Arch::X86,
        target_lexicon::Architecture::Aarch64(target_lexicon::Aarch64Architecture::Aarch64) => {
            Arch::Aarch64
        },
        target_lexicon::Architecture::Aarch64(_) => Arch::Aarch64Be,
        target_lexicon::Architecture::S390x => Arch::S390x,
        target_lexicon::Architecture::Riscv64(_) => Arch::Riscv64,
        target_lexicon::Architecture::Pulley32
        | target_lexicon::Architecture::Pulley64
        | target_lexicon::Architecture::Pulley32be
        | target_lexicon::Architecture::Pulley64be => Arch::Pulley,
        _ => Arch::Other,
    }
}

/// Relies on `cranelift_codegen::isa::lookup`. The x86, arm64, s390x and
/// riscv64 backends are compiled into this build, and so are the pulley
/// interpreter backends (the engine crate asks for them): for all those
/// families the lookup returns a builder in the architecture's default
/// state, for every other architecture `Unsupported`. A backend left out
/// of a build would be reported as `SupportDisabled`. The backend's
/// aarch64 builder itself aborts on the big-endian variant of that
/// family, so this wrapper refuses it as unsupported before the call.
#[verifier::external_body]
pub fn isa_lookup(t: target_lexicon::Triple) -> (r: Result<HostIsaBuilder, ResolveError>)
    ensures
        match arch_of(t) {
            Arch::X86 | Arch::Aarch64 | Arch::S390x | Arch::Riscv64 | Arch::Pulley => r is Ok,
            Arch::Aarch64Be | Arch::Other => r == Err::<HostIsaBuilder, ResolveError>(
                ResolveError::Unsupported,
            ),
        },
        r matches Ok(b) ==> builder_arch(b) == arch_of(t) && builder_settings(b)
            == default_settings(arch_of(t)),
{
    match t.architecture {
        target_lexicon::Architecture::Aarch64(target_lexicon::Aarch64Architecture::Aarch64) => {},
        target_lexicon::Architecture::Aarch64(_) => {
            return Err(ResolveError::Unsupported);
        },
        _ => {},
    }
    match cranelift_codegen::isa::lookup(t) {
        Ok(inner) => Ok(HostIsaBuilder { inner }),
        Err(cranelift_codegen::isa::LookupError::SupportDisabled) => Err(
            ResolveError::SupportDisabled,
        ),
        Err(cranelift_codegen::isa::LookupError::Unsupported) => Err(ResolveError::Unsupported),
    }
}

/// Relies on `Configurable::set` for `cranelift_codegen::isa::Builder`:
/// setting a boolean flag that the builder's architecture defines to "0"
/// or "1" writes exactly that setting and succeeds.
#[verifier::external_body]
pub fn isa_set(b: &mut HostIsaBuilder, name: &str, value: &str)
    requires
        flag_known(builder_arch(*old(b)), name@),
        value@ == "0"@ || value@ == "1"@,
    ensures
        builder_arch(*final(b)) == builder_arch(*old(b)),
        builder_settings(*final(b)) == builder_settings(*old(b)).insert(name@, value@),
{
    b.inner.set(name, value).unwrap();
}

/// Relies on `IsaBuilder::finish` with default shared flags
/// (`settings::Flags::new(settings::builder())`): turns the configured
/// builder into an executable backend, or reports that the flag
/// combination was rejected.
#[verifier::external_body]
fn isa_finish(b: HostIsaBuilder) -> (r: Option<FinishedIsa>) {
    let shared = cranelift_codegen::settings::Flags::new(cranelift_codegen::settings::builder());
    match b.inner.finish(shared) {
        Ok(inner) => Some(FinishedIsa { inner }),
        Err(_) => None,
    }
}

/// Relies on `TargetIsa::default_call_conv`.
#[verifier::external_body]
fn isa_call_conv(i: &FinishedIsa) -> (c: CallConvTag) {
    match i.inner.default_call_conv() {
        cranelift_codegen::isa::CallConv::SystemV => CallConvTag::SystemV,
        cranelift_codegen::isa::CallConv::WindowsFastcall => CallConvTag::WindowsFastcall,
        cranelift_codegen::isa::CallConv::AppleAarch64 => CallConvTag::AppleAarch64,
        _ => CallConvTag::Other,
    }
}

/// Relies on `TargetIsa::pointer_bits`.
#[verifier::external_body]
fn isa_pointer_bits(i: &FinishedIsa) -> (n: u8) {
    i.inner.pointer_bits()
}

/// Relies on `TargetIsa::isa_flags` and `settings::Value::as_bool`: hands
/// the backend's boolean flag values out as plain (name, value) pairs.
#[verifier::external_body]
fn isa_bool_flags(i: &FinishedIsa) -> (r: Vec<(String, bool)>) {
    i.inner
        .isa_flags()
        .iter()
        .filter_map(|v| v.as_bool().map(|b| (v.name.to_string(), b)))
        .collect()
}

/// The calling conventions the finished backend may report, reduced to
/// the ones a caller of this crate distinguishes.
#[derive(Clone, Copy, Debug, PartialEq, Eq, Structural)]
pub enum CallConvTag {
    SystemV,
    WindowsFastcall,
    AppleAarch64,
    Other,
}

impl HostIsaBuilder {
    /// Finalize the configured builder into an executable backend with
    /// default shared flags. Finalization is the collaborator's own step:
    /// nothing is promised of it beyond what the accessors below report.
    pub fn finish(self) -> (r: Option<FinishedIsa>) {
        isa_finish(self)
    }
}

impl FinishedIsa {
    /// The calling convention the finished backend uses by default.
    pub fn default_call_conv(&self) -> (c: CallConvTag) {
        isa_call_conv(self)
    }

    /// The native pointer width of the finished backend, in bits.
    pub fn pointer_bits(&self) -> (n: u8) {
        isa_pointer_bits(self)
    }

    /// The boolean capability flags of the finished backend, as (name,
    /// value) pairs.
    pub fn bool_flags(&self) -> (r: Vec<(String, bool)>) {
        isa_bool_flags(self)
    }
}

} // verus!
