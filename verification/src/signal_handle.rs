//! Remote control by Unix signals: SIGUSR1 and SIGUSR2 toggle transcription
//! the way the corresponding shortcuts do.

use vstd::prelude::*;
use vstd::string::*;

verus! {

/// Which binding a received signal drives, and the signal's name; other
/// signals are ignored.
pub fn signal_binding(signal: i32, sigusr1: i32, sigusr2: i32) -> (res: Option<(&'static str, &'static str)>)
    ensures
        signal == sigusr1 ==> (res matches Some((b, n)) && b@ == "transcribe_with_post_process"@ && n@
            == "SIGUSR1"@),
        signal != sigusr1 && signal == sigusr2 ==> (res matches Some((b, n)) && b@ == "transcribe"@ && n@
            == "SIGUSR2"@),
        signal != sigusr1 && signal != sigusr2 ==> res is None,
{
    if signal == sigusr1 {
        Some(("transcribe_with_post_process", "SIGUSR1"))
    } else if signal == sigusr2 {
        Some(("transcribe", "SIGUSR2"))
    } else {
        None
    }
}

} // verus!
