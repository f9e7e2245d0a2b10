//! The name of a subscriber.

use super::characters::{char_is_whitespace, is_whitespace};
use super::error::ValidationError;
use vstd::prelude::*;

verus! {

/// The largest number of grapheme clusters a name may have.
pub const MAX_NAME_GRAPHEMES: usize = 256;

/// The number of extended grapheme clusters of `text`, as Unicode Standard
/// Annex #29 delimits them. The segmentation rules are not restated here:
/// the count is whatever `unicode_segmentation` computes.
pub uninterp spec fn grapheme_count(text: Seq<char>) -> nat;

/// The characters that may not occur anywhere in a name.
pub open spec fn is_forbidden(c: char) -> bool {
    c == '/' || c == '(' || c == ')' || c == '"' || c == '<' || c == '>' || c == '\\' || c == '{'
        || c == '}'
}

/// Nothing but whitespace; the empty text is blank too. This is what is left
/// empty when leading and trailing whitespace is trimmed away.
pub open spec fn is_blank(text: Seq<char>) -> bool {
    forall|i: int| 0 <= i < text.len() ==> is_whitespace(#[trigger] text[i])
}

/// Some character of `text` is forbidden.
pub open spec fn has_forbidden_character(text: Seq<char>) -> bool {
    exists|i: int| 0 <= i < text.len() && is_forbidden(#[trigger] text[i])
}

/// The first rule that `text` breaks when it has `graphemes` grapheme
/// clusters, or `None` when it breaks no rule. Blankness is reported before
/// length, and length before a forbidden character.
pub open spec fn name_defect_given(text: Seq<char>, graphemes: nat) -> Option<ValidationError> {
    if is_blank(text) {
        Some(ValidationError::EmptyName)
    } else if graphemes > MAX_NAME_GRAPHEMES {
        Some(ValidationError::NameTooLong)
    } else if has_forbidden_character(text) {
        Some(ValidationError::ForbiddenCharacter)
    } else {
        None
    }
}

/// The first rule that `text` breaks, or `None` when it is a valid name.
pub open spec fn name_defect(text: Seq<char>) -> Option<ValidationError> {
    name_defect_given(text, grapheme_count(text))
}

/// `text` may be the name of a subscriber.
pub open spec fn is_valid_name(text: Seq<char>) -> bool {
    name_defect(text) is None
}

/// Counts the extended grapheme clusters of `text` by
/// `unicode_segmentation::UnicodeSegmentation::graphemes`.
///
/// Not verified: it is taken on trust that the number counted is
/// [`grapheme_count`] of the text, which holds because the count depends on
/// the text alone.
#[verifier::external_body]
fn count_graphemes(text: &str) -> (n: usize)
    ensures
        n == grapheme_count(text@),
{
    unicode_segmentation::UnicodeSegmentation::graphemes(text, true).count()
}

/// Decides [`is_forbidden`] for one character.
pub fn char_is_forbidden(c: char) -> (r: bool)
    ensures
        r == is_forbidden(c),
{
    c == '/' || c == '(' || c == ')' || c == '"' || c == '<' || c == '>' || c == '\\' || c == '{'
        || c == '}'
}

/// Decides [`is_blank`].
pub fn text_is_blank(text: &str) -> (r: bool)
    ensures
        r == is_blank(text@),
{
    let mut blank = true;
    for c in it: text.chars()
        invariant
            it.seq() == text@,
            blank == (forall|i: int| 0 <= i < it.index() ==> is_whitespace(#[trigger] text@[i])),
    {
        if !char_is_whitespace(c) {
            blank = false;
        }
    }
    blank
}

/// Decides [`has_forbidden_character`].
pub fn text_has_forbidden_character(text: &str) -> (r: bool)
    ensures
        r == has_forbidden_character(text@),
{
    let mut found = false;
    for c in it: text.chars()
        invariant
            it.seq() == text@,
            found == (exists|i: int| 0 <= i < it.index() && is_forbidden(#[trigger] text@[i])),
    {
        if char_is_forbidden(c) {
            found = true;
        }
    }
    found
}

/// A subscriber's name: text that is not blank, has at most
/// [`MAX_NAME_GRAPHEMES`] grapheme clusters and holds no forbidden character.
///
/// The only way to obtain one is [`SubscriberName::parse`], so every value
/// of this type is a valid name.
#[derive(Debug)]
pub struct SubscriberName {
    text: String,
}

impl View for SubscriberName {
    type V = Seq<char>;

    closed spec fn view(&self) -> Seq<char> {
        self.text@
    }
}

impl SubscriberName {
    #[verifier::type_invariant]
    spec fn well_formed(self) -> bool {
        is_valid_name(self.text@)
    }

    /// The first rule that `text` breaks, given the number of its grapheme
    /// clusters; `Ok` when it breaks none.
    pub fn check(text: &str, graphemes: usize) -> (r: Result<(), ValidationError>)
        ensures
            r == match name_defect_given(text@, graphemes as nat) {
                Some(e) => Err::<(), ValidationError>(e),
                None => Ok(()),
            },
    {
        if text_is_blank(text) {
            Err(ValidationError::EmptyName)
        } else if graphemes > MAX_NAME_GRAPHEMES {
            Err(ValidationError::NameTooLong)
        } else if text_has_forbidden_character(text) {
            Err(ValidationError::ForbiddenCharacter)
        } else {
            Ok(())
        }
    }

    /// Turns `s` into a name, or says which rule it breaks.
    ///
    /// The text is kept exactly as given: surrounding whitespace is looked
    /// past when testing for blankness, but it is not removed.
    pub fn parse(s: String) -> (r: Result<SubscriberName, ValidationError>)
        ensures
            match r {
                Ok(name) => name_defect(s@) is None && name@ == s@,
                Err(e) => name_defect(s@) == Some(e),
            },
            is_blank(s@) ==> r is Err,
            grapheme_count(s@) > MAX_NAME_GRAPHEMES ==> r is Err,
            has_forbidden_character(s@) ==> r is Err,
            !is_blank(s@) && grapheme_count(s@) <= MAX_NAME_GRAPHEMES && !has_forbidden_character(
                s@,
            ) ==> r is Ok,
    {
        let graphemes = count_graphemes(s.as_str());
        match Self::check(s.as_str(), graphemes) {
            Ok(()) => Ok(SubscriberName { text: s }),
            Err(e) => Err(e),
        }
    }

    /// The name's text, which is a valid name.
    pub fn as_ref(&self) -> (text: &str)
        ensures
            text@ == self@,
            is_valid_name(self@),
    {
        proof {
            use_type_invariant(self);
        }
        self.text.as_str()
    }
}

} // verus!
