//! The `<noscript>` element.

use crate::markup::{
    close_tag, element, lemma_closing_tag_only_at_end, lemma_element_frames_text,
    lemma_element_injective, occurs_at, occurs_in, open_tag, text_end, text_start,
};
use crate::text::{as_str, duplicate};
use std::borrow::Cow;
use vstd::prelude::*;
use vstd::string::StringExecFns;

verus! {

/// The `<noscript>` tag. Its text is shown to people whose browsers do not
/// support Javascript, or who have switched it off.
///
/// The text is fixed when the tag is made and goes into the markup exactly as
/// it is: nothing in it is escaped. Text that comes from elsewhere is the
/// caller's to escape.
#[derive(Debug)]
#[must_use]
pub struct NoScript {
    text: Cow<'static, str>,
}

/// The name of the element: `noscript`.
pub open spec fn tag_name() -> Seq<char> {
    seq!['n', 'o', 's', 'c', 'r', 'i', 'p', 't']
}

impl View for NoScript {
    type V = Seq<char>;

    /// The text of the tag.
    open spec fn view(&self) -> Seq<char> {
        self.stored()@
    }
}

impl NoScript {
    /// The text as the tag holds it, borrowed or owned.
    pub closed spec fn stored(&self) -> Cow<'static, str> {
        self.text
    }

    /// What the tag renders to: `<noscript>`, the text, `</noscript>`.
    pub open spec fn markup(&self) -> Seq<char> {
        element(tag_name(), self@)
    }

    /// Construct a new `<noscript>` tag around `text`, which may be a
    /// `&'static str`, a `String` or a `Cow` of either. The tag holds what
    /// the conversion of `text` gives, unchanged; for each of the three that
    /// is the string itself, as the lemmas of [`crate::text`] state.
    pub fn new<T>(text: T) -> (tag: Self) where T: Into<Cow<'static, str>>
        ensures
            call_ensures(T::into, (text,), tag.stored()),
    {
        Self { text: text.into() }
    }

    /// The text of the tag.
    pub fn text(&self) -> (text: &str)
        ensures
            text@ == self@,
    {
        as_str(&self.text)
    }

    /// Takes the tag apart and gives the text back as the tag held it,
    /// without copying it.
    pub fn into_text(self) -> (text: Cow<'static, str>)
        ensures
            text == self.stored(),
    {
        self.text
    }

    /// The markup of the tag: `<noscript>`, then the text with nothing
    /// escaped, then `</noscript>`.
    pub fn render(&self) -> (markup: String)
        ensures
            markup@ == self.markup(),
    {
        let mut markup = String::from_str("<noscript>");
        markup.append(self.text());
        markup.append("</noscript>");
        proof {
            reveal_strlit("<noscript>");
            reveal_strlit("</noscript>");
            assert("<noscript>"@ =~= open_tag(tag_name()));
            assert("</noscript>"@ =~= close_tag(tag_name()));
        }
        markup
    }
}

impl Clone for NoScript {
    /// A tag with the same text.
    fn clone(&self) -> (copy: Self)
        ensures
            copy == *self,
    {
        NoScript { text: duplicate(&self.text) }
    }
}

/// Creates a new `NoScript` tag: the same as `NoScript::new(text)`, and
/// easier to type.
pub fn noscript(text: impl Into<Cow<'static, str>>) -> (tag: NoScript)
    ensures
        call_ensures(Into::<Cow<'static, str>>::into, (text,), tag.stored()),
{
    NoScript::new(text)
}

/// A tag made from the text that was taken out of another is that other tag
/// again: `new` and `into_text` undo each other.
pub proof fn lemma_new_undoes_into_text(tag: NoScript, again: NoScript)
    requires
        call_ensures(
            <Cow<'static, str> as Into<Cow<'static, str>>>::into,
            (tag.stored(),),
            again.stored(),
        ),
    ensures
        again == tag,
{
}

/// The markup holds the text verbatim: it is the opening tag, the text and
/// the closing tag, one after the other and nothing else, so no character of
/// the text is escaped, dropped or added to.
pub proof fn lemma_markup_holds_text_verbatim(tag: NoScript)
    ensures
        tag.markup().len() == 10 + tag@.len() + 11,
        text_start(tag_name()) == 10,
        occurs_at(tag.markup(), open_tag(tag_name()), 0),
        occurs_at(tag.markup(), tag@, text_start(tag_name())),
        occurs_at(tag.markup(), close_tag(tag_name()), text_end(tag_name(), tag@)),
{
    lemma_element_frames_text(tag_name(), tag@);
}

/// Two tags have the same markup exactly when they have the same text. From
/// right to left: rendering depends on the text alone, so rendering a tag
/// again gives the same markup. From left to right: the text can be had back
/// from the markup.
pub proof fn lemma_same_markup_iff_same_text(a: NoScript, b: NoScript)
    ensures
        a.markup() == b.markup() <==> a@ == b@,
{
    if a.markup() == b.markup() {
        lemma_element_injective(tag_name(), a@, b@);
    }
}

/// Where the text holds no `</noscript>`, the markup holds it once only, at
/// its end. A reader that takes the text of the element to run from the
/// opening tag to the first closing tag reads the text that the tag was made
/// with.
pub proof fn lemma_markup_closes_at_end(tag: NoScript)
    requires
        !occurs_in(tag@, close_tag(tag_name())),
    ensures
        forall|at: int| #[trigger]
            occurs_at(tag.markup(), close_tag(tag_name()), at) <==> at == text_end(
                tag_name(),
                tag@,
            ),
{
    lemma_closing_tag_only_at_end(tag_name(), tag@);
}

} // verus!
