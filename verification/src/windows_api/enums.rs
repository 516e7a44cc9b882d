//! The answers of a message box.

use vstd::prelude::*;

verus! {

/// Button code of a message box: "Yes".
pub const IDYES: i32 = 6;

/// Button code of a message box: "No".
pub const IDNO: i32 = 7;

/// The answer that a message box was closed with.
#[derive(Clone, Copy, Debug, PartialEq, Eq, Structural)]
pub enum MessageBoxResult {
    Yes,
    No,
    OK,
    Cancel,
    Unknown,
}

impl MessageBoxResult {
    /// The answer that a button code stands for: "Yes", "No", or unknown
    /// for every other code.
    pub open spec fn of(win32_result: i32) -> MessageBoxResult {
        if win32_result == IDYES {
            MessageBoxResult::Yes
        } else if win32_result == IDNO {
            MessageBoxResult::No
        } else {
            MessageBoxResult::Unknown
        }
    }

    /// Classifies the button code that a message box returned.
    pub fn convert(win32_result: i32) -> (answer: MessageBoxResult)
        ensures
            answer == MessageBoxResult::of(win32_result),
    {
        if win32_result == IDYES {
            MessageBoxResult::Yes
        } else if win32_result == IDNO {
            MessageBoxResult::No
        } else {
            MessageBoxResult::Unknown
        }
    }

    /// Whether the answer confirms a yes-or-no question: only "Yes" does.
    pub fn is_confirmed(&self) -> (confirmed: bool)
        ensures
            confirmed == (*self is Yes),
    {
        match self {
            MessageBoxResult::Yes => true,
            _ => false,
        }
    }
}

} // verus!
