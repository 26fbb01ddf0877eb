//! Shortening text for display.

use vstd::prelude::*;
use crate::text::{concat, owned, string_of, to_chars};

verus! {

/// `s` cut down to `len` characters: unchanged if it is no longer than that,
/// empty if `len` is 0, and otherwise its first `len` characters followed by
/// `ellipse`.
pub open spec fn truncated(s: Seq<char>, len: nat, ellipse: Seq<char>) -> Seq<char> {
    if s.len() <= len {
        s
    } else if len == 0 {
        Seq::<char>::empty()
    } else {
        s.take(len as int) + ellipse
    }
}

/// The ellipse that is used where none is given.
pub open spec fn default_ellipse() -> Seq<char> {
    "..."@
}

/// Truncate and ellipse strings in a human-friendly way.
pub trait Ellipse {
    type Output;

    /// The characters of the text that is truncated.
    spec fn chars(&self) -> Seq<char>;

    /// The characters of what truncating gives.
    spec fn output_chars(out: &Self::Output) -> Seq<char>;

    /// Truncate to a length of `len` characters and place the given ellipse
    /// string at the end when truncating.
    ///
    /// Truncating to a length of 0 will yield the empty element without an
    /// attached ellipsis.
    fn truncate_ellipse_with(&self, len: usize, ellipse: &str) -> (r: Self::Output)
        ensures
            Self::output_chars(&r) == truncated(self.chars(), len as nat, ellipse@),
    ;

    /// Truncate to a length of `len` characters and add `...` at the end of
    /// the string when truncating.
    ///
    /// Truncating to a length of 0 will yield the empty element without an
    /// attached ellipsis.
    fn truncate_ellipse(&self, len: usize) -> (r: Self::Output)
        ensures
            Self::output_chars(&r) == truncated(self.chars(), len as nat, default_ellipse()),
    {
        self.truncate_ellipse_with(len, "...")
    }
}

impl<'a> Ellipse for &'a str {
    type Output = String;

    open spec fn chars(&self) -> Seq<char> {
        self@
    }

    open spec fn output_chars(out: &String) -> Seq<char> {
        out@
    }

    fn truncate_ellipse_with(&self, len: usize, ellipse: &str) -> (r: String) {
        let chars = to_chars(self);
        if chars.len() <= len {
            return owned(self);
        } else if len == 0 {
            return String::new();
        }
        let head = string_of(&chars, 0, len);
        concat(head.as_str(), ellipse)
    }
}

} // verus!
