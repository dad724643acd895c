use std::str::FromStr;

use host_isa::backend::CallConvTag;
use host_isa::probes::{Aarch64Features, HostProbes, S390xFeatures, X86Features};
use host_isa::resolver::{builder, builder_for_target, builder_with_options, ResolveError};
use target_lexicon::Triple;

fn x86_probes(sse2: bool) -> HostProbes {
    let mut p = HostProbes::none();
    p.x86.sse2 = sse2;
    p
}

fn flags_of(r: Result<host_isa::backend::HostIsaBuilder, ResolveError>) -> Vec<(String, bool)> {
    let b = match r {
        Ok(b) => b,
        Err(e) => panic!("expected a builder, got failure: {}", e.message()),
    };
    let isa = match b.finish() {
        Some(isa) => isa,
        None => panic!("finalization failed"),
    };
    let mut flags = isa.bool_flags();
    flags.sort();
    flags
}

fn flag(flags: &[(String, bool)], name: &str) -> bool {
    for (n, v) in flags {
        if n == name {
            return *v;
        }
    }
    panic!("flag {} not reported", name);
}

#[test]
fn test() {
    if let Ok(b) = builder(&x86_probes(true)) {
        let isa = b.finish().expect("finalization failed");
        assert_eq!(isa.default_call_conv(), CallConvTag::SystemV);
        assert_eq!(isa.pointer_bits(), 64);
    }
}

#[test]
fn baseline_missing_fails_in_every_mode() {
    let p = x86_probes(false);
    let t = Triple::from_str("x86_64-unknown-linux-gnu").unwrap();
    for r in [
        builder_for_target(t.clone(), &p, true),
        builder_for_target(t.clone(), &p, false),
    ] {
        match r {
            Err(e) => assert_eq!(e, ResolveError::BaselineMissing),
            Ok(_) => panic!("builder returned despite missing baseline"),
        }
    }
    // The running host is x86-64 as well, so the host entry points gate too.
    match builder(&p) {
        Err(e) => assert_eq!(e, ResolveError::BaselineMissing),
        Ok(_) => panic!("builder returned despite missing baseline"),
    }
    match builder_with_options(&p, false) {
        Err(e) => assert_eq!(e, ResolveError::BaselineMissing),
        Ok(_) => panic!("builder returned despite missing baseline"),
    }
}

#[test]
fn baseline_check_is_mode_independent() {
    let t = Triple::from_str("x86_64-unknown-linux-gnu").unwrap();
    let absent = x86_probes(false);
    assert!(builder_for_target(t.clone(), &absent, true).is_err());
    assert!(builder_for_target(t.clone(), &absent, false).is_err());
    let present = x86_probes(true);
    assert!(builder_for_target(t.clone(), &present, true).is_ok());
    assert!(builder_for_target(t, &present, false).is_ok());
}

#[test]
fn skip_mode_keeps_architecture_default() {
    let t = Triple::from_str("x86_64-unknown-linux-gnu").unwrap();
    let mut p = x86_probes(true);
    p.x86.avx2 = true;
    p.x86.lzcnt = true;
    let skipped = flags_of(builder_for_target(t.clone(), &p, false));

    // An untouched builder from the backend itself is the reference for
    // the architecture's default state.
    let raw = cranelift_codegen::isa::lookup(t)
        .unwrap()
        .finish(cranelift_codegen::settings::Flags::new(
            cranelift_codegen::settings::builder(),
        ))
        .unwrap();
    let mut reference: Vec<(String, bool)> = raw
        .isa_flags()
        .iter()
        .filter_map(|v| v.as_bool().map(|b| (v.name.to_string(), b)))
        .collect();
    reference.sort();
    assert_eq!(skipped, reference);
}

#[test]
fn determinism_same_probes_same_flags() {
    let mut p = x86_probes(true);
    p.x86.sse3 = true;
    p.x86.avx = true;
    p.x86.bmi2 = true;
    let f1 = flags_of(builder(&p));
    let f2 = flags_of(builder(&p));
    assert_eq!(f1, f2);
}

#[test]
fn unknown_architecture_is_unsupported() {
    let p = x86_probes(false);
    let t = Triple::from_str("armv7-unknown-linux-gnueabihf").unwrap();
    match builder_for_target(t, &p, true) {
        Err(e) => assert_eq!(e, ResolveError::Unsupported),
        Ok(_) => panic!("builder returned for an unrecognized architecture"),
    }
}

#[test]
fn big_endian_aarch64_is_refused_up_front() {
    // The backend's aarch64 builder accepts only the little-endian
    // variant; the resolver must refuse the big-endian one as
    // unsupported instead of reaching the backend.
    let p = HostProbes::none();
    let t = Triple::from_str("aarch64_be-unknown-linux-gnu").unwrap();
    match builder_for_target(t, &p, true) {
        Err(e) => assert_eq!(e, ResolveError::Unsupported),
        Ok(_) => panic!("builder returned for big-endian aarch64"),
    }
}

#[test]
fn pulley_architecture_resolves_without_probes() {
    let p = x86_probes(false);
    let t = Triple::from_str("pulley64-unknown-unknown").unwrap();
    let full = flags_of(builder_for_target(t.clone(), &p, true));
    let skipped = flags_of(builder_for_target(t, &p, false));
    assert_eq!(full, skipped);
}

#[test]
fn x86_end_to_end_scenario() {
    let mut p = HostProbes::none();
    p.x86 = X86Features {
        sse2: true,
        avx2: true,
        avx512f: false,
        lzcnt: true,
        ..X86Features::none()
    };
    let flags = flags_of(builder(&p));
    assert!(flag(&flags, "has_avx2"));
    assert!(flag(&flags, "has_lzcnt"));
    assert!(!flag(&flags, "has_avx512f"));
    for name in [
        "has_sse3",
        "has_ssse3",
        "has_sse41",
        "has_sse42",
        "has_popcnt",
        "has_avx",
        "has_bmi1",
        "has_bmi2",
        "has_avx512bitalg",
        "has_avx512dq",
        "has_avx512vl",
        "has_avx512vbmi",
        "has_cmpxchg16b",
        "has_fma",
        "has_avx_vnni",
        "has_avx512vnni",
    ] {
        assert!(!flag(&flags, name), "{} should be at its default", name);
    }
}

#[test]
fn x86_flags_confirm_probes() {
    let mut p = x86_probes(true);
    p.x86.ssse3 = true;
    p.x86.popcnt = true;
    p.x86.avx512vl = true;
    let flags = flags_of(builder(&p));
    // Every flag the resolver enabled is confirmed by the probe report it
    // was given; every flag whose probe was absent stays disabled.
    assert_eq!(flag(&flags, "has_sse3"), p.x86.sse3);
    assert_eq!(flag(&flags, "has_ssse3"), p.x86.ssse3);
    assert_eq!(flag(&flags, "has_sse41"), p.x86.sse41);
    assert_eq!(flag(&flags, "has_sse42"), p.x86.sse42);
    assert_eq!(flag(&flags, "has_popcnt"), p.x86.popcnt);
    assert_eq!(flag(&flags, "has_avx"), p.x86.avx);
    assert_eq!(flag(&flags, "has_avx2"), p.x86.avx2);
    assert_eq!(flag(&flags, "has_bmi1"), p.x86.bmi1);
    assert_eq!(flag(&flags, "has_bmi2"), p.x86.bmi2);
    assert_eq!(flag(&flags, "has_avx512bitalg"), p.x86.avx512bitalg);
    assert_eq!(flag(&flags, "has_avx512dq"), p.x86.avx512dq);
    assert_eq!(flag(&flags, "has_avx512f"), p.x86.avx512f);
    assert_eq!(flag(&flags, "has_avx512vl"), p.x86.avx512vl);
    assert_eq!(flag(&flags, "has_avx512vbmi"), p.x86.avx512vbmi);
    assert_eq!(flag(&flags, "has_lzcnt"), p.x86.lzcnt);
}

#[test]
fn aarch64_end_to_end_scenario() {
    let t = Triple::from_str("aarch64-unknown-linux-gnu").unwrap();
    let mut p = HostProbes::none();
    p.aarch64 = Aarch64Features { lse: false };
    let flags = flags_of(builder_for_target(t.clone(), &p, true));
    assert!(!flag(&flags, "has_lse"));

    p.aarch64 = Aarch64Features { lse: true };
    let flags = flags_of(builder_for_target(t, &p, true));
    assert!(flag(&flags, "has_lse"));
}

#[test]
fn aarch64_apple_call_conv() {
    let t = Triple::from_str("aarch64-apple-darwin").unwrap();
    let p = HostProbes::none();
    let b = builder_for_target(t, &p, true).ok().unwrap();
    let isa = b.finish().expect("finalization failed");
    assert_eq!(isa.default_call_conv(), CallConvTag::AppleAarch64);
    assert_eq!(isa.pointer_bits(), 64);
}

#[test]
fn windows_call_conv() {
    let t = Triple::from_str("x86_64-pc-windows-msvc").unwrap();
    let p = x86_probes(true);
    let b = builder_for_target(t, &p, true).ok().unwrap();
    let isa = b.finish().expect("finalization failed");
    assert_eq!(isa.default_call_conv(), CallConvTag::WindowsFastcall);
}

#[test]
fn s390x_vector_extension_inference() {
    let t = Triple::from_str("s390x-unknown-linux-gnu").unwrap();
    let mut p = HostProbes::none();

    p.s390x = S390xFeatures { hwcap: 32768 };
    let flags = flags_of(builder_for_target(t.clone(), &p, true));
    assert!(flag(&flags, "has_vxrs_ext2"));
    // The second flag has no probe of its own: it follows the first.
    assert!(flag(&flags, "has_mie3"));

    p.s390x = S390xFeatures { hwcap: 0xFFFF_7FFF };
    let flags = flags_of(builder_for_target(t.clone(), &p, true));
    assert!(!flag(&flags, "has_vxrs_ext2"));
    assert!(!flag(&flags, "has_mie3"));

    p.s390x = S390xFeatures { hwcap: 0 };
    let flags = flags_of(builder_for_target(t, &p, true));
    assert!(!flag(&flags, "has_vxrs_ext2"));
    assert!(!flag(&flags, "has_mie3"));
}

#[test]
fn riscv64_has_no_probes() {
    let t = Triple::from_str("riscv64gc-unknown-linux-gnu").unwrap();
    let p = HostProbes::none();
    let full = flags_of(builder_for_target(t.clone(), &p, true));
    let skipped = flags_of(builder_for_target(t, &p, false));
    assert_eq!(full, skipped);
}

#[test]
fn failure_messages() {
    assert_eq!(
        ResolveError::SupportDisabled.message(),
        "support for architecture disabled at compile time"
    );
    assert_eq!(ResolveError::Unsupported.message(), "unsupported architecture");
    assert_eq!(ResolveError::BaselineMissing.message(), "x86 support requires SSE2");
}
