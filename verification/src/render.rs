//! What a value reads as: the text that its `Display` and its `Debug` give.

use std::fmt::{Debug, Display};
use vstd::prelude::*;
use vstd::string::to_string_from_display_ensures;

verus! {

/// Holds when `text` is a rendering that the `Display` of `value` gives.
pub open spec fn displays_as<T: Display + ?Sized>(value: &T, text: Seq<char>) -> bool {
    exists|rendered: String| #[trigger]
        to_string_from_display_ensures::<T>(value, rendered) && rendered@ == text
}

/// Holds when `text` is a rendering that the `Debug` of `value` gives.
pub closed spec fn debugs_as<T: Debug + ?Sized>(value: &T, text: Seq<char>) -> bool {
    exists|rendered: String| #[trigger]
        call_ensures(debug_text::<T>, (value,), rendered) && rendered@ == text
}

/// The text that the `Debug` of `value` gives.
pub fn debug_string<T: Debug + ?Sized>(value: &T) -> (text: String)
    ensures
        debugs_as(value, text@),
{
    debug_text(value)
}

/// The debug rendering of `value`, as `format!` gives it for `{:?}`.
///
/// Nothing is claimed of the text: what a value prints is up to its `Debug`
/// implementation.
#[verifier::external_body]
fn debug_text<T: Debug + ?Sized>(value: &T) -> (text: String) {
    format!("{:?}", value)
}

/// The text that `Debug` gives for a string of these characters: the string
/// in quotes, with the characters that need it escaped.
pub uninterp spec fn debug_of_text(text: Seq<char>) -> Seq<char>;

/// The debug rendering of a string, as `format!` gives it for `{:?}` through
/// `<str as Debug>::fmt`.
///
/// The text depends on the characters of `value` and on nothing else, which
/// is all that is claimed of it.
#[verifier::external_body]
pub(crate) fn debug_of_str(value: &str) -> (text: String)
    ensures
        text@ == debug_of_text(value@),
{
    format!("{:?}", value)
}

} // verus!
