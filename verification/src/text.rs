//! Text for people to read.
use core::fmt::Debug;
use vstd::prelude::*;

verus! {

/// `String::push_str` of the standard library: the text grows by `tail`
/// at its end and is otherwise unchanged.
pub assume_specification[ String::push_str ](text: &mut String, tail: &str)
    ensures
        final(text)@ == old(text)@ + tail@,
;

/// How `value` writes itself for debugging.
///
/// This is `format!("{:?}", ..)` of the standard library. Nothing is said
/// of the text that comes back: how a `T` writes itself is up to `T`.
#[verifier::external_body]
fn debug_text<T: Debug>(value: &T) -> String {
    format!("{:?}", value)
}

/// The layout of a described value: the name of its type, then the value
/// and its two bounds, labelled, between braces.
pub open spec fn layout(
    name: Seq<char>,
    inner: Seq<char>,
    min: Seq<char>,
    max: Seq<char>,
) -> Seq<char> {
    name + " {inner: "@ + inner + ", min: "@ + min + ", max: "@ + max + "}"@
}

/// Lays out a value and its two bounds under the name of their type, each
/// of the three written as `T` writes itself for debugging.
pub(crate) fn describe<T: Debug>(name: &str, inner: &T, min: &T, max: &T) -> (r: String)
    ensures
        exists|a: Seq<char>, b: Seq<char>, c: Seq<char>| r@ == layout(name@, a, b, c),
{
    let inner_text = debug_text(inner);
    let min_text = debug_text(min);
    let max_text = debug_text(max);
    let mut text = String::new();
    text.push_str(name);
    text.push_str(" {inner: ");
    text.push_str(inner_text.as_str());
    text.push_str(", min: ");
    text.push_str(min_text.as_str());
    text.push_str(", max: ");
    text.push_str(max_text.as_str());
    text.push_str("}");
    assert(text@ == layout(name@, inner_text@, min_text@, max_text@));
    text
}

} // verus!
