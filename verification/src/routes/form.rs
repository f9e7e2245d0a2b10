//! The submitted form: two text fields, `email` and `name`.

use crate::domain::characters::{ascii_lower, char_ascii_lower};
use vstd::prelude::*;

verus! {

/// A field of the form.
#[derive(Clone, Copy, Debug, PartialEq, Eq, Structural)]
pub enum Field {
    Email,
    Name,
}

/// Why a submission does not yield a form.
#[derive(Clone, Copy, Debug, PartialEq, Eq, Structural)]
pub enum FormError {
    /// The request does not say that its body is an urlencoded form.
    UnsupportedContentType,
    /// The field was not submitted.
    MissingField(Field),
    /// The field was submitted more than once.
    DuplicateField(Field),
}

/// The two fields of a submission, as text that nothing has been checked of.
#[derive(Debug)]
pub struct FormData {
    pub email: String,
    pub name: String,
}

/// The pairs of key and value that a body in the
/// `application/x-www-form-urlencoded` syntax holds, in their order, keys
/// and values percent-decoded. The syntax is not restated here: the pairs are
/// whatever `form_urlencoded` yields.
pub uninterp spec fn urlencoded_pairs(body: Seq<u8>) -> Seq<(Seq<char>, Seq<char>)>;

/// The media type of an urlencoded form.
pub open spec fn form_media_type() -> Seq<char> {
    "application/x-www-form-urlencoded"@
}

/// `text` is the media type of an urlencoded form, in whatever case its
/// letters are written.
pub open spec fn is_form_media_type(text: Seq<char>) -> bool {
    &&& text.len() == form_media_type().len()
    &&& forall|i: int|
        0 <= i < text.len() ==> ascii_lower(#[trigger] text[i]) == ascii_lower(
            form_media_type()[i],
        )
}

/// The form that a request yields, as `(email, name)`, given its media type
/// and the pairs that its body holds. The media type is judged first: under
/// any other than that of an urlencoded form the body is not looked at.
pub open spec fn form_of_request(
    media_type: Seq<char>,
    pairs: Seq<(Seq<char>, Seq<char>)>,
) -> Result<(Seq<char>, Seq<char>), FormError> {
    if is_form_media_type(media_type) {
        form_of(pairs)
    } else {
        Err(FormError::UnsupportedContentType)
    }
}

/// The key under which a field is submitted.
pub open spec fn key_of(field: Field) -> Seq<char> {
    match field {
        Field::Email => "email"@,
        Field::Name => "name"@,
    }
}

/// The pairs of strings as pairs of texts.
pub open spec fn pairs_view(pairs: Seq<(String, String)>) -> Seq<(Seq<char>, Seq<char>)> {
    Seq::new(pairs.len(), |i: int| (pairs[i].0@, pairs[i].1@))
}

/// The values submitted under `key`, in their order.
pub open spec fn values_of(pairs: Seq<(Seq<char>, Seq<char>)>, key: Seq<char>) -> Seq<Seq<char>>
    decreases pairs.len(),
{
    if pairs.len() == 0 {
        Seq::empty()
    } else {
        let before = values_of(pairs.drop_last(), key);
        if pairs.last().0 == key {
            before.push(pairs.last().1)
        } else {
            before
        }
    }
}

/// The form that a sequence of pairs yields, as `(email, name)`: each of the
/// two fields must be submitted exactly once. Keys other than the two are
/// ignored. A duplicate is reported before an absence, and `email` before
/// `name`.
pub open spec fn form_of(pairs: Seq<(Seq<char>, Seq<char>)>) -> Result<
    (Seq<char>, Seq<char>),
    FormError,
> {
    let emails = values_of(pairs, key_of(Field::Email));
    let names = values_of(pairs, key_of(Field::Name));
    if emails.len() > 1 {
        Err(FormError::DuplicateField(Field::Email))
    } else if names.len() > 1 {
        Err(FormError::DuplicateField(Field::Name))
    } else if emails.len() == 0 {
        Err(FormError::MissingField(Field::Email))
    } else if names.len() == 0 {
        Err(FormError::MissingField(Field::Name))
    } else {
        Ok((emails[0], names[0]))
    }
}

/// Splits and decodes `body` by `form_urlencoded::parse`, and collects the
/// pairs that it yields.
///
/// Not verified: it is taken on trust that these pairs are
/// [`urlencoded_pairs`] of the body, which holds because they depend on the
/// body alone.
#[verifier::external_body]
fn decode_pairs(body: &[u8]) -> (pairs: Vec<(String, String)>)
    ensures
        pairs_view(pairs@) == urlencoded_pairs(body@),
{
    form_urlencoded::parse(body).into_owned().collect()
}

/// What one more pair adds to the values of a key.
proof fn lemma_values_of_push(
    pairs: Seq<(Seq<char>, Seq<char>)>,
    pair: (Seq<char>, Seq<char>),
    key: Seq<char>,
)
    ensures
        values_of(pairs.push(pair), key) == (if pair.0 == key {
            values_of(pairs, key).push(pair.1)
        } else {
            values_of(pairs, key)
        }),
{
    assert(pairs.push(pair).drop_last() =~= pairs);
}

/// Decides [`is_form_media_type`].
pub fn text_is_form_media_type(text: &str) -> (r: bool)
    ensures
        r == is_form_media_type(text@),
{
    let expected = "application/x-www-form-urlencoded";
    let n = expected.unicode_len();
    if text.unicode_len() != n {
        return false;
    }
    let mut i: usize = 0;
    while i < n
        invariant
            i <= n,
            n == text@.len(),
            expected@ == form_media_type(),
            text@.len() == form_media_type().len(),
            forall|j: int|
                0 <= j < i ==> ascii_lower(#[trigger] text@[j]) == ascii_lower(
                    form_media_type()[j],
                ),
        decreases n - i,
    {
        if char_ascii_lower(text.get_char(i)) != char_ascii_lower(expected.get_char(i)) {
            return false;
        }
        i += 1;
    }
    true
}

impl FormData {
    /// Picks the two fields out of decoded pairs.
    pub fn from_pairs(pairs: Vec<(String, String)>) -> (r: Result<FormData, FormError>)
        ensures
            match r {
                Ok(form) => form_of(pairs_view(pairs@)) == Ok::<(Seq<char>, Seq<char>), FormError>(
                    (form.email@, form.name@),
                ),
                Err(e) => form_of(pairs_view(pairs@)) == Err::<(Seq<char>, Seq<char>), FormError>(
                    e,
                ),
            },
    {
        let email_key = String::from_str("email");
        let name_key = String::from_str("name");
        let mut email: Option<String> = None;
        let mut name: Option<String> = None;
        let mut email_twice = false;
        let mut name_twice = false;
        let ghost all = pairs_view(pairs@);
        let mut i: usize = 0;
        while i < pairs.len()
            invariant
                i <= pairs.len(),
                all == pairs_view(pairs@),
                email_key@ == key_of(Field::Email),
                name_key@ == key_of(Field::Name),
                email_twice == (values_of(all.take(i as int), key_of(Field::Email)).len() > 1),
                name_twice == (values_of(all.take(i as int), key_of(Field::Name)).len() > 1),
                match email {
                    Some(text) => values_of(all.take(i as int), key_of(Field::Email)).len() > 0
                        && values_of(all.take(i as int), key_of(Field::Email))[0] == text@,
                    None => values_of(all.take(i as int), key_of(Field::Email)).len() == 0,
                },
                match name {
                    Some(text) => values_of(all.take(i as int), key_of(Field::Name)).len() > 0
                        && values_of(all.take(i as int), key_of(Field::Name))[0] == text@,
                    None => values_of(all.take(i as int), key_of(Field::Name)).len() == 0,
                },
            decreases pairs.len() - i,
        {
            proof {
                assert(all.take(i + 1) =~= all.take(i as int).push(all[i as int]));
                lemma_values_of_push(all.take(i as int), all[i as int], key_of(Field::Email));
                lemma_values_of_push(all.take(i as int), all[i as int], key_of(Field::Name));
            }
            if pairs[i].0 == email_key {
                if email.is_some() {
                    email_twice = true;
                } else {
                    email = Some(pairs[i].1.clone());
                }
            }
            if pairs[i].0 == name_key {
                if name.is_some() {
                    name_twice = true;
                } else {
                    name = Some(pairs[i].1.clone());
                }
            }
            i += 1;
        }
        proof {
            assert(all.take(pairs.len() as int) =~= all);
        }
        if email_twice {
            Err(FormError::DuplicateField(Field::Email))
        } else if name_twice {
            Err(FormError::DuplicateField(Field::Name))
        } else {
            match (email, name) {
                (None, _) => Err(FormError::MissingField(Field::Email)),
                (Some(_), None) => Err(FormError::MissingField(Field::Name)),
                (Some(email), Some(name)) => Ok(FormData { email, name }),
            }
        }
    }

    /// Decodes a body in the `application/x-www-form-urlencoded` syntax and
    /// picks the two fields out of it.
    pub fn from_urlencoded(body: &[u8]) -> (r: Result<FormData, FormError>)
        ensures
            match r {
                Ok(form) => form_of(urlencoded_pairs(body@)) == Ok::<
                    (Seq<char>, Seq<char>),
                    FormError,
                >((form.email@, form.name@)),
                Err(e) => form_of(urlencoded_pairs(body@)) == Err::<
                    (Seq<char>, Seq<char>),
                    FormError,
                >(e),
            },
    {
        Self::from_pairs(decode_pairs(body))
    }

    /// Reads the form of a request. `media_type` is what the request's
    /// `Content-Type` header names, without parameters; the body is decoded
    /// only when that is the media type of an urlencoded form.
    pub fn from_request(media_type: &str, body: &[u8]) -> (r: Result<FormData, FormError>)
        ensures
            match r {
                Ok(form) => form_of_request(media_type@, urlencoded_pairs(body@)) == Ok::<
                    (Seq<char>, Seq<char>),
                    FormError,
                >((form.email@, form.name@)),
                Err(e) => form_of_request(media_type@, urlencoded_pairs(body@)) == Err::<
                    (Seq<char>, Seq<char>),
                    FormError,
                >(e),
            },
    {
        if text_is_form_media_type(media_type) {
            Self::from_urlencoded(body)
        } else {
            Err(FormError::UnsupportedContentType)
        }
    }
}

} // verus!
