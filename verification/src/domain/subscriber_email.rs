//! The email address of a subscriber.

use super::characters::{char_is_control, char_is_whitespace, is_control, is_whitespace};
use super::error::ValidationError;
use vstd::prelude::*;

verus! {

/// Whether the email address grammar accepts `text`. The grammar is the one
/// that `validator` implements (the HTML5 definition of a valid address, with
/// its length limits and its treatment of internationalised domains); it is
/// not restated here.
pub uninterp spec fn email_grammar_accepts(text: Seq<char>) -> bool;

/// The position of the last `@` of `text`, or -1 when it holds none.
pub open spec fn last_at(text: Seq<char>) -> int
    decreases text.len(),
{
    if text.len() == 0 {
        -1
    } else if text.last() == '@' {
        text.len() - 1
    } else {
        last_at(text.drop_last())
    }
}

/// What stands before the last `@`.
pub open spec fn local_part(text: Seq<char>) -> Seq<char> {
    text.take(last_at(text))
}

/// What stands after the last `@`; the whole text when it holds no `@`.
pub open spec fn domain_part(text: Seq<char>) -> Seq<char> {
    text.skip(last_at(text) + 1)
}

/// No character of `text` is whitespace or a control character.
pub open spec fn is_clean(text: Seq<char>) -> bool {
    forall|i: int|
        0 <= i < text.len() ==> !is_whitespace(#[trigger] text[i]) && !is_control(text[i])
}

/// `text` reads as a local part, an `@` and a domain: it holds an `@`, the
/// local part is not empty, the domain holds a dot, and no whitespace or
/// control character occurs anywhere.
pub open spec fn has_address_shape(text: Seq<char>) -> bool {
    &&& text.contains('@')
    &&& local_part(text).len() > 0
    &&& domain_part(text).contains('.')
    &&& is_clean(text)
}

/// `text` may be the email address of a subscriber.
pub open spec fn is_valid_email(text: Seq<char>) -> bool {
    has_address_shape(text) && email_grammar_accepts(text)
}

/// `last_at` finds an `@` exactly when there is one, and none follows it.
pub proof fn lemma_last_at(text: Seq<char>)
    ensures
        -1 <= last_at(text) < text.len(),
        last_at(text) >= 0 <==> text.contains('@'),
        last_at(text) >= 0 ==> text[last_at(text)] == '@',
        forall|j: int| last_at(text) < j < text.len() ==> text[j] != '@',
    decreases text.len(),
{
    if text.len() == 0 {
    } else if text.last() == '@' {
    } else {
        let front = text.drop_last();
        lemma_last_at(front);
        if front.contains('@') {
            let k = choose|k: int| 0 <= k < front.len() && front[k] == '@';
            assert(text[k] == '@');
        }
        if text.contains('@') {
            let k = choose|k: int| 0 <= k < text.len() && text[k] == '@';
            assert(front[k] == '@');
        }
        assert forall|j: int| last_at(text) < j < text.len() implies text[j] != '@' by {
            if j < front.len() {
                assert(front[j] != '@');
            }
        }
    }
}

/// How the parts of a text change when one character is appended.
proof fn lemma_push(front: Seq<char>, c: char)
    ensures
        last_at(front.push(c)) == (if c == '@' {
            front.len() as int
        } else {
            last_at(front)
        }),
        domain_part(front.push(c)).contains('.') == (c != '@' && (c == '.' || domain_part(
            front,
        ).contains('.'))),
        is_clean(front.push(c)) == (is_clean(front) && !is_whitespace(c) && !is_control(c)),
{
    let text = front.push(c);
    assert(text.drop_last() =~= front);
    lemma_last_at(front);
    if c == '@' {
        assert(domain_part(text) =~= Seq::<char>::empty());
    } else {
        let d = domain_part(front);
        assert(domain_part(text) =~= d.push(c));
        if d.contains('.') {
            let k = choose|k: int| 0 <= k < d.len() && d[k] == '.';
            assert(d.push(c)[k] == '.');
        }
        if c == '.' {
            assert(d.push(c)[d.len() as int] == '.');
        }
        if d.push(c).contains('.') {
            let k = choose|k: int| 0 <= k < d.push(c).len() && d.push(c)[k] == '.';
            if k < d.len() {
                assert(d[k] == '.');
            }
        }
    }
    if is_clean(text) {
        assert forall|i: int| 0 <= i < front.len() implies !is_whitespace(#[trigger] front[i])
            && !is_control(front[i]) by {
            assert(text[i] == front[i]);
        }
        assert(text[front.len() as int] == c);
    }
}

/// Asks `validator::ValidateEmail::validate_email` whether `text` is an
/// email address.
///
/// Not verified: it is taken on trust that the answer is
/// [`email_grammar_accepts`] of the text, which holds because the answer
/// depends on the text alone.
#[verifier::external_body]
fn passes_email_grammar(text: &str) -> (ok: bool)
    ensures
        ok == email_grammar_accepts(text@),
{
    validator::ValidateEmail::validate_email(&text)
}

/// Decides [`has_address_shape`] in one pass over the text.
pub fn text_has_address_shape(text: &str) -> (r: bool)
    ensures
        r == has_address_shape(text@),
{
    let mut seen_any = false;
    let mut seen_at = false;
    let mut local_nonempty = false;
    let mut dot_in_domain = false;
    let mut clean = true;
    for c in it: text.chars()
        invariant
            it.seq() == text@,
            seen_any == (it.index() > 0),
            seen_at == (last_at(text@.take(it.index())) >= 0),
            local_nonempty == (last_at(text@.take(it.index())) > 0),
            dot_in_domain == domain_part(text@.take(it.index())).contains('.'),
            clean == is_clean(text@.take(it.index())),
    {
        proof {
            let i = it.index();
            assert(text@.take(i + 1) =~= text@.take(i).push(c));
            lemma_push(text@.take(i), c);
        }
        if c == '@' {
            seen_at = true;
            local_nonempty = seen_any;
            dot_in_domain = false;
        } else if c == '.' {
            dot_in_domain = true;
        }
        if char_is_whitespace(c) || char_is_control(c) {
            clean = false;
        }
        seen_any = true;
    }
    proof {
        assert(text@.take(text@.len() as int) =~= text@);
        lemma_last_at(text@);
    }
    seen_at && local_nonempty && dot_in_domain && clean
}

/// A subscriber's email address: text that has the shape of an address and
/// that the email address grammar accepts.
///
/// The only way to obtain one is [`SubscriberEmail::parse`], so every value
/// of this type is a valid address.
#[derive(Debug)]
pub struct SubscriberEmail {
    text: String,
}

impl View for SubscriberEmail {
    type V = Seq<char>;

    closed spec fn view(&self) -> Seq<char> {
        self.text@
    }
}

impl SubscriberEmail {
    #[verifier::type_invariant]
    spec fn well_formed(self) -> bool {
        is_valid_email(self.text@)
    }

    /// Whether `text` is acceptable, given the grammar's answer for it.
    pub fn check(text: &str, grammar_ok: bool) -> (r: Result<(), ValidationError>)
        ensures
            r == (if has_address_shape(text@) && grammar_ok {
                Ok::<(), ValidationError>(())
            } else {
                Err(ValidationError::MalformedEmail)
            }),
    {
        if grammar_ok && text_has_address_shape(text) {
            Ok(())
        } else {
            Err(ValidationError::MalformedEmail)
        }
    }

    /// Turns `s` into an email address, or refuses it.
    ///
    /// The text is kept exactly as given.
    pub fn parse(s: String) -> (r: Result<SubscriberEmail, ValidationError>)
        ensures
            match r {
                Ok(email) => is_valid_email(s@) && email@ == s@,
                Err(e) => !is_valid_email(s@) && e == ValidationError::MalformedEmail,
            },
            s@.len() == 0 ==> r is Err,
            !s@.contains('@') ==> r is Err,
            local_part(s@).len() == 0 ==> r is Err,
            !domain_part(s@).contains('.') ==> r is Err,
            !is_clean(s@) ==> r is Err,
    {
        let grammar_ok = passes_email_grammar(s.as_str());
        match Self::check(s.as_str(), grammar_ok) {
            Ok(()) => Ok(SubscriberEmail { text: s }),
            Err(e) => Err(e),
        }
    }

    /// The address's text, which is a valid address.
    pub fn as_ref(&self) -> (text: &str)
        ensures
            text@ == self@,
            is_valid_email(self@),
    {
        proof {
            use_type_invariant(self);
        }
        self.text.as_str()
    }
}

} // verus!
