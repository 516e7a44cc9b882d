//! Signal quantisation and status-code checking.

use vstd::prelude::*;

verus! {

/// The status code with which the wireless API reports success.
pub const ERROR_SUCCESS: u32 = 0;

/// A status code of the operating system that is not the success code.
#[derive(Clone, Copy, Debug, PartialEq, Eq, Structural)]
pub struct Win32Error(pub u32);

/// The number of signal bars shown for a raw signal quality.
pub open spec fn signal_bars(quality: int) -> int {
    if 80 <= quality <= 100 {
        4
    } else if 60 <= quality <= 79 {
        3
    } else if 40 <= quality <= 59 {
        2
    } else if 20 <= quality <= 39 {
        1
    } else {
        0
    }
}

/// Quantises a raw signal quality into bars. Qualities above 100 are not
/// valid readings and show no bars.
pub fn check_signal_strength(quality: u32) -> (bars: u32)
    ensures
        bars == signal_bars(quality as int),
        bars <= 4,
{
    if quality > 100 {
        0
    } else if quality >= 80 {
        4
    } else if quality >= 60 {
        3
    } else if quality >= 40 {
        2
    } else if quality >= 20 {
        1
    } else {
        0
    }
}

/// Quantisation never yields more than four bars, and within the valid
/// range of qualities a better quality never shows fewer bars.
pub proof fn signal_bars_monotonic(a: int, b: int)
    requires
        0 <= a <= b <= 100,
    ensures
        0 <= signal_bars(a) <= signal_bars(b) <= 4,
{
}

/// Turns a raw status code into a result: the success code is `Ok`, every
/// other code is an error that carries the code.
pub fn check_win32(result: u32) -> (checked: Result<(), Win32Error>)
    ensures
        result == ERROR_SUCCESS <==> checked.is_ok(),
        result != ERROR_SUCCESS ==> checked == Err::<(), Win32Error>(Win32Error(result)),
{
    if result == ERROR_SUCCESS {
        Ok(())
    } else {
        Err(Win32Error(result))
    }
}

} // verus!
