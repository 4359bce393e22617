//! Conversions that rest on what the host guarantees.
//!
//! The host checks much of what it hands to a plugin.  Where a conversion
//! leans on such a check, it says so in its precondition: the caller owes
//! the reason for which the host's guarantee holds.

use vstd::prelude::*;
use vstd::string::*;
use vstd::utf8::*;

verus! {

/// A conversion of a value that the host has checked already.
///
/// An implementation names what the host guarantees of the value; whoever
/// calls `assume_valid` has to know that it holds.
pub trait AssumeValid<T>: Sized {
    /// What the host guarantees of the value.
    spec fn host_guarantee(&self) -> bool;

    /// Whether `result` is what the value converts into.
    spec fn converts_into(&self, result: T) -> bool;

    /// Converts the value into a `T`.
    fn assume_valid(self) -> (result: T)
        requires
            self.host_guarantee(),
        ensures
            self.converts_into(result),
    ;
}

/// Calls `core::str::from_utf8`, which the standard library documents to
/// give the bytes back as a string slice where they are valid UTF-8, and
/// an error where they are not.
#[verifier::external_body]
fn from_utf8<'a>(bytes: &'a [u8]) -> (r: Option<&'a str>)
    ensures
        r is Some <==> valid_utf8(bytes@),
        r matches Some(s) ==> s.spec_bytes() == bytes@,
{
    core::str::from_utf8(bytes).ok()
}

/// Reads bytes as a text, if they are valid UTF-8.
pub fn text_of<'a>(bytes: &'a [u8]) -> (r: Option<&'a str>)
    ensures
        r is Some <==> valid_utf8(bytes@),
        r matches Some(s) ==> s@ == decode_utf8(bytes@),
{
    let r = from_utf8(bytes);
    proof {
        if let Some(s) = r {
            encode_utf8_decode_utf8(s@);
        }
    }
    r
}

impl<'a> AssumeValid<&'a str> for &'a [u8] {
    /// The texts of the host are valid UTF-8.
    open spec fn host_guarantee(&self) -> bool {
        valid_utf8(self@)
    }

    open spec fn converts_into(&self, result: &'a str) -> bool {
        result@ == decode_utf8(self@)
    }

    /// Reads the bytes of a text of the host as a string slice.
    fn assume_valid(self) -> (result: &'a str) {
        match text_of(self) {
            Some(s) => s,
            None => "",
        }
    }
}

} // verus!
