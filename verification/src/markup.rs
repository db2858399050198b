//! The markup of a text-only element, as a sequence of characters.
//!
//! An element of this kind is written as its opening tag, its text exactly as
//! it was given, and its closing tag. Nothing is escaped, trimmed or checked:
//! a caller that embeds text from elsewhere escapes it first.

use vstd::prelude::*;

verus! {

/// `<name>`
pub open spec fn open_tag(name: Seq<char>) -> Seq<char> {
    seq!['<'] + name + seq!['>']
}

/// `</name>`
pub open spec fn close_tag(name: Seq<char>) -> Seq<char> {
    seq!['<', '/'] + name + seq!['>']
}

/// `<name>text</name>`: the whole element, with `text` verbatim between the tags.
pub open spec fn element(name: Seq<char>, text: Seq<char>) -> Seq<char> {
    open_tag(name) + text + close_tag(name)
}

/// The index in the element at which the text begins.
pub open spec fn text_start(name: Seq<char>) -> int {
    open_tag(name).len() as int
}

/// The index in the element at which the text ends and the closing tag begins.
pub open spec fn text_end(name: Seq<char>, text: Seq<char>) -> int {
    text_start(name) + text.len()
}

/// A name that holds neither `<` nor `/`, so that no tag can begin inside it.
pub open spec fn is_plain_name(name: Seq<char>) -> bool {
    forall|i: int| 0 <= i < name.len() ==> name[i] != '<' && name[i] != '/'
}

/// `part` stands in `whole`, starting at index `at`.
pub open spec fn occurs_at(whole: Seq<char>, part: Seq<char>, at: int) -> bool {
    &&& 0 <= at
    &&& at + part.len() <= whole.len()
    &&& whole.subrange(at, at + part.len()) == part
}

/// `part` stands somewhere in `whole`.
pub open spec fn occurs_in(whole: Seq<char>, part: Seq<char>) -> bool {
    exists|at: int| occurs_at(whole, part, at)
}

/// The element begins with its opening tag and ends with its closing tag, and
/// what stands between the two is the text, character for character.
pub proof fn lemma_element_frames_text(name: Seq<char>, text: Seq<char>)
    ensures
        element(name, text).len() == text_end(name, text) + close_tag(name).len(),
        occurs_at(element(name, text), open_tag(name), 0),
        occurs_at(element(name, text), text, text_start(name)),
        occurs_at(element(name, text), close_tag(name), text_end(name, text)),
{
    let whole = element(name, text);
    let start = text_start(name);
    let end = text_end(name, text);
    assert(whole.subrange(0, start) =~= open_tag(name));
    assert(whole.subrange(start, end) =~= text);
    assert(whole.subrange(end, end + close_tag(name).len()) =~= close_tag(name));
}

/// Two elements of one name are equal only if their texts are: the markup
/// loses nothing of the text.
pub proof fn lemma_element_injective(name: Seq<char>, a: Seq<char>, b: Seq<char>)
    requires
        element(name, a) == element(name, b),
    ensures
        a == b,
{
    lemma_element_frames_text(name, a);
    lemma_element_frames_text(name, b);
}

/// Where the name is plain and the text holds no closing tag, the element
/// holds the closing tag once only, at its end. Reading from the opening tag
/// up to the first closing tag therefore gives back the text.
pub proof fn lemma_closing_tag_only_at_end(name: Seq<char>, text: Seq<char>)
    requires
        is_plain_name(name),
        !occurs_in(text, close_tag(name)),
    ensures
        forall|at: int| #[trigger]
            occurs_at(element(name, text), close_tag(name), at) <==> at == text_end(name, text),
{
    let whole = element(name, text);
    let close = close_tag(name);
    let start = text_start(name);
    let end = text_end(name, text);
    lemma_element_frames_text(name, text);
    assert forall|at: int| #[trigger] occurs_at(whole, close, at) implies at == end by {
        let window = whole.subrange(at, at + close.len());
        if at == 0 {
            // The second character of the element is not a slash.
            assert(window[1] == close[1]);
        } else if at < start {
            // Past its first character the opening tag holds no `<`.
            assert(window[0] == close[0]);
        } else if at + close.len() <= end {
            // The window lies inside the text.
            assert(text.subrange(at - start, at - start + close.len()) =~= window);
            assert(occurs_at(text, close, at - start));
        } else if at < end {
            // The window reaches over the `<` of the closing tag.
            assert(window[end - at] == close[end - at]);
        }
    }
}

} // verus!
