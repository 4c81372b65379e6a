//! What the library assumes of the standard library's texts: white space
//! and trimming, upper and lower case, parts of a text, and editing.

use vstd::prelude::*;

verus! {

/// Whether `char::is_whitespace` holds of a character: whether it has the
/// Unicode property `White_Space`.
pub uninterp spec fn is_white_space(c: char) -> bool;

/// The upper case of a text, as `str::to_uppercase` gives it.
pub uninterp spec fn uppercased(text: Seq<char>) -> Seq<char>;

/// The lower case of a text, as `str::to_lowercase` gives it.
pub uninterp spec fn lowercased(text: Seq<char>) -> Seq<char>;

/// Whether `part` stands somewhere in `text`, character for character.
pub open spec fn is_part_of(part: Seq<char>, text: Seq<char>) -> bool {
    exists|start: int|
        0 <= start <= text.len() - part.len() && #[trigger] text.subrange(
            start,
            start + part.len(),
        ) == part
}

/// A text without its last character; the empty text stays empty.
pub open spec fn without_last(text: Seq<char>) -> Seq<char> {
    if text.len() > 0 {
        text.drop_last()
    } else {
        text
    }
}

/// How many characters of white space a text begins with.
pub open spec fn leading_white_space(text: Seq<char>) -> nat
    decreases text.len(),
{
    if text.len() > 0 && is_white_space(text.first()) {
        1 + leading_white_space(text.drop_first())
    } else {
        0
    }
}

/// How many characters of white space a text ends with.
pub open spec fn trailing_white_space(text: Seq<char>) -> nat
    decreases text.len(),
{
    if text.len() > 0 && is_white_space(text.last()) {
        1 + trailing_white_space(text.drop_last())
    } else {
        0
    }
}

/// A text without the white space that it begins and ends with.
pub open spec fn trimmed(text: Seq<char>) -> Seq<char> {
    let rest = text.skip(leading_white_space(text) as int);
    rest.take(rest.len() - trailing_white_space(rest))
}

/// `str::trim` removes leading and trailing white space, which is what
/// `char::is_whitespace` says it is.
pub assume_specification[ str::trim ](text: &str) -> (inner: &str)
    ensures
        inner@ == trimmed(text@),
        inner@.len() > 0 ==> !is_white_space(inner@.first()) && !is_white_space(inner@.last()),
;

/// `str::to_uppercase` gives the upper case of a text by Unicode's rules,
/// which depends on the text alone; [`uppercased`] names it.
pub assume_specification[ str::to_uppercase ](text: &str) -> (upper: String)
    ensures
        upper@ == uppercased(text@),
;

/// `str::to_lowercase` gives the lower case of a text by Unicode's rules,
/// which depends on the text alone; [`lowercased`] names it.
pub assume_specification[ str::to_lowercase ](text: &str) -> (lower: String)
    ensures
        lower@ == lowercased(text@),
;

/// Whether `part` stands in `text`, by `str::contains` with a text as the
/// pattern, which holds exactly if the pattern matches a part of the text.
#[verifier::external_body]
pub(crate) fn has_part(text: &str, part: &str) -> (found: bool)
    ensures
        found == is_part_of(part@, text@),
{
    text.contains(part)
}

/// `String::push` appends the character.
pub assume_specification[ String::push ](text: &mut String, c: char)
    ensures
        final(text)@ == old(text)@.push(c),
;

/// `String::pop` removes the last character and gives it, or `None` where
/// the text is empty.
pub assume_specification[ String::pop ](text: &mut String) -> (last: Option<char>)
    ensures
        final(text)@ == without_last(old(text)@),
        last == if old(text)@.len() > 0 {
            Some(old(text)@.last())
        } else {
            None
        },
;

/// `String::clear` removes all characters.
pub assume_specification[ String::clear ](text: &mut String)
    ensures
        final(text)@ == Seq::<char>::empty(),
;

/// Two texts are equal, by `==` of `str`, exactly if they hold the same
/// characters.
pub assume_specification[ <str as PartialEq>::eq ](left: &str, right: &str) -> (equal: bool)
    ensures
        equal == (left@ == right@),
;

} // verus!
