//! The CPU capability check made at startup: whisper-family models need
//! AVX2 on x86. The CPU is queried by the caller (with `raw_cpuid` on x86
//! and x86-64; other architectures have nothing to query).

use vstd::prelude::*;
use vstd::string::*;

verus! {

/// The message shown when the CPU lacks AVX2.
pub open spec fn avx2_missing_message() -> Seq<char> {
    "AVX2 instruction set not supported on this CPU. Handy requires AVX2 support for optimal performance with Whisper models."@
}

/// The outcome of the AVX2 check from what the CPU reports: `None` on an
/// architecture without CPUID (nothing to check), otherwise whether AVX2 is
/// supported. Only an x86 CPU without AVX2 fails.
pub fn check_avx2_support(cpu_has_avx2: Option<bool>) -> (res: Result<(), String>)
    ensures
        cpu_has_avx2 == Some(false) ==> (res matches Err(m) && m@ == avx2_missing_message()),
        cpu_has_avx2 != Some(false) ==> res is Ok,
{
    match cpu_has_avx2 {
        Some(false) => Err(
            String::from_str(
                "AVX2 instruction set not supported on this CPU. Handy requires AVX2 support for optimal performance with Whisper models.",
            ),
        ),
        _ => Ok(()),
    }
}

} // verus!
