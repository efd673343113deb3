//! The text of titles. A title is handed over as any value that converts into a
//! `String`, such as a string slice or a `String`.
//!
//! The two conversions named here are those of the standard library. What is said
//! of them is taken from its documentation and is not proved.

use vstd::prelude::*;

verus! {

/// Whether `text` is what `title` converts into: what `title.into()` returns.
pub open spec fn converts_to<S: Into<String>>(title: S, text: String) -> bool {
    call_ensures(<S as Into<String>>::into, (title,), text)
}

/// `<String as From<&str>>::from`, which `into` calls on a string slice. Taken on
/// trust: the `String` that it returns holds the characters of the slice, in
/// their order.
pub assume_specification<'_0>[ <String as From<&str>>::from ](slice: &str) -> (owned: String)
    ensures
        owned@ == slice@,
;

/// `From::from` of a type on itself, which `into` calls on a `String`. Taken on
/// trust: it returns its argument unchanged.
pub assume_specification<Val>[ <Val as From<Val>>::from ](val: Val) -> (out: Val)
    ensures
        out == val,
;

} // verus!
