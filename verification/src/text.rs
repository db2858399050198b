//! The text that a node carries.
//!
//! A node holds its text as a `Cow<'static, str>`: a string known when the
//! program was compiled is held by reference, one built while it runs is held
//! by value, and neither is copied on the way in. Whichever it is, the text
//! is the same sequence of characters, the view of the `Cow`.

use std::borrow::Cow;
use vstd::prelude::*;

verus! {

/// `Cow::from` on a string slice, the standard library's `From<&str>` for
/// `Cow<str>`, through which a `&'static str` reaches a node. Believed of it
/// and not proved, as its documentation says: the result is the `Borrowed`
/// variant and holds the slice that was given.
pub assume_specification<'a>[ <Cow<'a, str> as From<&'a str>>::from ](s: &'a str) -> (text: Cow<
    'a,
    str,
>)
    ensures
        text == Cow::<str>::Borrowed(s),
;

/// `Cow::from` on a `String`, the standard library's `From<String>` for
/// `Cow<str>`, through which an owned string reaches a node. Believed of it
/// and not proved, as its documentation says: the result is the `Owned`
/// variant and holds the string that was given.
pub assume_specification<'a>[ <Cow<'a, str> as From<String>>::from ](s: String) -> (text: Cow<
    'a,
    str,
>)
    ensures
        text == Cow::<str>::Owned(s),
;

/// `From::from` of a type on itself, the standard library's `From<T>` for
/// every `T`, through which a `Cow` reaches a node. Believed of it and not
/// proved, as its documentation says: the result is the argument, unchanged.
pub assume_specification<A>[ <A as From<A>>::from ](a: A) -> (same: A)
    ensures
        same == a,
;

/// Whatever the conversion of a `&'static str` gives holds the characters of
/// that string.
pub proof fn lemma_str_keeps_its_characters(s: &'static str, text: Cow<'static, str>)
    requires
        call_ensures(<&'static str as Into<Cow<'static, str>>>::into, (s,), text),
    ensures
        text@ == s@,
{
}

/// Whatever the conversion of a `String` gives holds the characters of that
/// string.
pub proof fn lemma_string_keeps_its_characters(s: String, text: Cow<'static, str>)
    requires
        call_ensures(<String as Into<Cow<'static, str>>>::into, (s,), text),
    ensures
        text@ == s@,
{
}

/// Whatever the conversion of a `Cow` gives is that `Cow`.
pub proof fn lemma_cow_stays_as_it_is(given: Cow<'static, str>, text: Cow<'static, str>)
    requires
        call_ensures(<Cow<'static, str> as Into<Cow<'static, str>>>::into, (given,), text),
    ensures
        text == given,
{
}

/// The characters of `text`, borrowed for as long as `text` is.
pub(crate) fn as_str<'a>(text: &'a Cow<'static, str>) -> (s: &'a str)
    ensures
        s@ == text@,
{
    match text {
        Cow::Borrowed(s) => s,
        Cow::Owned(s) => s.as_str(),
    }
}

/// A copy of `text`: a borrowed string is borrowed once more, an owned one is
/// cloned.
pub(crate) fn duplicate(text: &Cow<'static, str>) -> (copy: Cow<'static, str>)
    ensures
        copy == *text,
{
    match text {
        Cow::Borrowed(s) => Cow::Borrowed(*s),
        Cow::Owned(s) => Cow::Owned(s.clone()),
    }
}

} // verus!
