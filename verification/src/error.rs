//! Errors as the frontend receives them.
use vstd::prelude::*;
use crate::text::{chars_of, contains_chars, contains_text};

verus! {

/// An error with a machine-readable code and the message shown to the user.
pub struct ApiError {
    pub code: &'static str,
    pub message: String,
}

/// The code of an error, read off its message: a poisoned state lock, then a
/// D-Bus failure, then anything else.
pub open spec fn api_error_code(message: Seq<char>) -> Seq<char> {
    if contains_text(message, "state lock poisoned"@) {
        "state_poisoned"@
    } else if contains_text(message, "D-Bus"@) {
        "dbus_error"@
    } else {
        "internal_error"@
    }
}

impl ApiError {
    /// The error reported for a failure with the message `message`.
    pub fn from_message(message: String) -> (r: Self)
        ensures
            r.code@ == api_error_code(message@),
            r.message == message,
    {
        let m = chars_of(message.as_str());
        let code = if contains_chars(&m, &chars_of("state lock poisoned")) {
            "state_poisoned"
        } else if contains_chars(&m, &chars_of("D-Bus")) {
            "dbus_error"
        } else {
            "internal_error"
        };
        ApiError { code, message }
    }
}

} // verus!
