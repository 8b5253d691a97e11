//! Secret-safe values for logs and diagnostics.

use vstd::prelude::*;

verus! {

/// The text shown in place of a secret.
pub open spec fn redaction_text() -> Seq<char> {
    "[REDACTED]"@
}

/// A value, such as a token, that must never be written to logs or the UI.
/// Its textual forms are the redaction marker, never the value.
#[derive(Clone)]
pub struct Secret {
    value: String,
}

impl Secret {
    pub closed spec fn value_view(&self) -> Seq<char> {
        self.value@
    }

    /// Wraps a secret value.
    pub fn new(value: &str) -> (r: Secret)
        ensures
            r.value_view() == value@,
    {
        Secret { value: String::from_str(value) }
    }

    /// The secret value itself, for the code that must use it.
    pub fn expose(&self) -> (r: &str)
        ensures
            r@ == self.value_view(),
    {
        self.value.as_str()
    }

    /// The text written wherever the secret is displayed or debug-printed.
    pub fn redacted(&self) -> (r: &'static str)
        ensures
            r@ == redaction_text(),
    {
        "[REDACTED]"
    }
}

} // verus!
