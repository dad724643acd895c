//! Plain-value descriptions of what the hardware probes of the running
//! machine reported.
//!
//! The resolver itself never reads the hardware: the per-architecture probe
//! results are handed to it as values of these types, and every decision the
//! resolver takes is a verified function of them.

use vstd::prelude::*;

verus! {

/// The architecture families the resolver dispatches on.
///
/// `Aarch64` is the little-endian 64-bit ARM family the backend supports;
/// `Aarch64Be` is its big-endian variant, which the backend refuses and
/// the resolver therefore rejects up front. `Pulley` covers the portable
/// interpreter targets; `Other` covers every architecture the backend
/// lookup does not recognize at all.
#[derive(Clone, Copy, Debug, PartialEq, Eq, Structural)]
pub enum Arch {
    X86,
    Aarch64,
    Aarch64Be,
    S390x,
    Riscv64,
    Pulley,
    Other,
}

/// Results of the per-extension hardware capability queries on an x86 host.
///
/// `sse2` is the mandatory baseline of the x86 backend; the remaining
/// fields are the optional extensions the resolver may enable.
#[derive(Clone, Copy, Debug, PartialEq, Eq, Structural)]
pub struct X86Features {
    pub sse2: bool,
    pub sse3: bool,
    pub ssse3: bool,
    pub sse41: bool,
    pub sse42: bool,
    pub popcnt: bool,
    pub avx: bool,
    pub avx2: bool,
    pub bmi1: bool,
    pub bmi2: bool,
    pub avx512bitalg: bool,
    pub avx512dq: bool,
    pub avx512f: bool,
    pub avx512vl: bool,
    pub avx512vbmi: bool,
    pub lzcnt: bool,
}

/// Results of the hardware capability queries on a 64-bit ARM host.
#[derive(Clone, Copy, Debug, PartialEq, Eq, Structural)]
pub struct Aarch64Features {
    /// The large-system-extensions atomic instructions.
    pub lse: bool,
}

/// The kernel-exposed capability vector of an S390x host, as read from the
/// auxiliary vector.
#[derive(Clone, Copy, Debug, PartialEq, Eq, Structural)]
pub struct S390xFeatures {
    pub hwcap: u64,
}

/// The capability-vector bit that reports the second vector-extension
/// facility on S390x.
pub const HWCAP_S390X_VXRS_EXT2: u64 = 32768;

/// Whether the S390x capability vector reports the second vector-extension
/// facility.
pub open spec fn s390x_vxrs_ext2(hwcap: u64) -> bool {
    hwcap & HWCAP_S390X_VXRS_EXT2 != 0
}

/// Everything the hardware probes of the running machine reported, one
/// field per architecture family that has probes.
///
/// Only the field of the machine's own family is ever read; the others may
/// carry any value.
#[derive(Clone, Copy, Debug, PartialEq, Eq, Structural)]
pub struct HostProbes {
    pub x86: X86Features,
    pub aarch64: Aarch64Features,
    pub s390x: S390xFeatures,
}

impl X86Features {
    /// A report with every extension, the baseline included, absent.
    pub fn none() -> (r: X86Features)
        ensures
            r == (X86Features {
                sse2: false,
                sse3: false,
                ssse3: false,
                sse41: false,
                sse42: false,
                popcnt: false,
                avx: false,
                avx2: false,
                bmi1: false,
                bmi2: false,
                avx512bitalg: false,
                avx512dq: false,
                avx512f: false,
                avx512vl: false,
                avx512vbmi: false,
                lzcnt: false,
            }),
    {
        X86Features {
            sse2: false,
            sse3: false,
            ssse3: false,
            sse41: false,
            sse42: false,
            popcnt: false,
            avx: false,
            avx2: false,
            bmi1: false,
            bmi2: false,
            avx512bitalg: false,
            avx512dq: false,
            avx512f: false,
            avx512vl: false,
            avx512vbmi: false,
            lzcnt: false,
        }
    }
}

impl HostProbes {
    /// A report with every probe absent and an empty capability vector.
    pub fn none() -> (r: HostProbes)
        ensures
            r == (HostProbes {
                x86: X86Features {
                    sse2: false,
                    sse3: false,
                    ssse3: false,
                    sse41: false,
                    sse42: false,
                    popcnt: false,
                    avx: false,
                    avx2: false,
                    bmi1: false,
                    bmi2: false,
                    avx512bitalg: false,
                    avx512dq: false,
                    avx512f: false,
                    avx512vl: false,
                    avx512vbmi: false,
                    lzcnt: false,
                },
                aarch64: Aarch64Features { lse: false },
                s390x: S390xFeatures { hwcap: 0 },
            }),
    {
        HostProbes {
            x86: X86Features::none(),
            aarch64: Aarch64Features { lse: false },
            s390x: S390xFeatures { hwcap: 0 },
        }
    }
}



} // verus!
