//! The host response envelope and its outcome classification.
//!
//! Every host response carries a mandatory outcome string and zero or more
//! payload fields that are only meaningful when the outcome reports success.
//! The outcome is tagged purely by the suffix of that string — `":ok"`,
//! `":cancel"`, anything else — exactly as the external host contract fixes
//! it, so the comparison is an exact, case-sensitive suffix match.

use crate::error::JSApiError;
use crate::text::has_suffix;
use crate::text::str_ends_with;
use vstd::prelude::*;

verus! {

/// The outcome-string suffix that tags success.
pub open spec fn ok_suffix() -> Seq<char> {
    ":ok"@
}

/// The outcome-string suffix that tags user cancellation.
pub open spec fn cancel_suffix() -> Seq<char> {
    ":cancel"@
}

/// A decoded host response: the outcome string, and the typed payload that
/// the host contract guarantees to be present when the outcome reports
/// success.
pub struct WxResponse<T> {
    /// The raw outcome string (`errMsg`/`err_msg` field of the wire shape).
    pub err_msg: String,
    /// The typed payload; meaningless unless the outcome ends in `":ok"`.
    pub value: Option<T>,
}

/// A string ending in `":cancel"` never ends in `":ok"`: the two suffixes
/// differ in their last character, so the classifier's arms are disjoint.
pub proof fn lemma_cancel_suffix_excludes_ok(s: Seq<char>)
    requires
        has_suffix(s, cancel_suffix()),
    ensures
        !has_suffix(s, ok_suffix()),
{
    reveal_strlit(":ok");
    reveal_strlit(":cancel");
    assert(s.subrange(s.len() - 7, s.len() as int)[6] == s[s.len() - 1]);
    if has_suffix(s, ok_suffix()) {
        assert(s.subrange(s.len() - 3, s.len() as int)[2] == s[s.len() - 1]);
    }
}

impl<T> WxResponse<T> {
    /// The outcome string reports success.
    pub open spec fn is_ok(self) -> bool {
        has_suffix(self.err_msg@, ok_suffix())
    }

    /// The outcome string reports user cancellation.
    pub open spec fn is_cancel(self) -> bool {
        has_suffix(self.err_msg@, cancel_suffix())
    }

    /// Classify an envelope for a capability without cancel semantics.
    ///
    /// An outcome ending in `":ok"` yields the payload, which the host
    /// contract owes us — its absence is an invariant violation reported as
    /// [`JSApiError::MalformedSuccess`]. Any other outcome, a `":cancel"`
    /// suffix included, is a business-level failure carrying the raw
    /// outcome string verbatim.
    pub fn into_result(self) -> (r: Result<T, JSApiError>)
        ensures
            match r {
                Ok(v) => self.is_ok() && self.value == Some(v),
                Err(e) => match e {
                    JSApiError::MalformedSuccess => self.is_ok() && self.value is None,
                    JSApiError::ApiError { message } => !self.is_ok() && message@
                        == self.err_msg@,
                    _ => false,
                },
            },
    {
        if str_ends_with(self.err_msg.as_str(), ":ok") {
            match self.value {
                Some(v) => Ok(v),
                None => Err(JSApiError::MalformedSuccess),
            }
        } else {
            Err(JSApiError::ApiError { message: self.err_msg })
        }
    }

    /// Classify an envelope for a capability that models cancellation as a
    /// valid business outcome: like [`WxResponse::into_result`], but an
    /// outcome ending in `":cancel"` yields `Ok(None)` — regardless of any
    /// payload — instead of an error.
    pub fn into_cancel_result(self) -> (r: Result<Option<T>, JSApiError>)
        ensures
            match r {
                Ok(Some(v)) => self.is_ok() && self.value == Some(v),
                Ok(None) => !self.is_ok() && self.is_cancel(),
                Err(e) => match e {
                    JSApiError::MalformedSuccess => self.is_ok() && self.value is None,
                    JSApiError::ApiError { message } => !self.is_ok() && !self.is_cancel()
                        && message@ == self.err_msg@,
                    _ => false,
                },
            },
    {
        if str_ends_with(self.err_msg.as_str(), ":ok") {
            match self.value {
                Some(v) => Ok(Some(v)),
                None => Err(JSApiError::MalformedSuccess),
            }
        } else if str_ends_with(self.err_msg.as_str(), ":cancel") {
            Ok(None)
        } else {
            Err(JSApiError::ApiError { message: self.err_msg })
        }
    }
}

} // verus!
