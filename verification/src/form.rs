//! The subscription form: which fields a decoded body must carry, and how a
//! body that does not carry them is refused.

use crate::text::text_eq;
use vstd::prelude::*;

verus! {

/// One of the two fields that the subscription form recognises.
#[derive(Clone, Copy, Debug, PartialEq, Eq, Structural)]
pub enum Field {
    Email,
    Name,
}

impl Field {
    /// The key under which the field travels in a form body.
    pub open spec fn key(self) -> Seq<char> {
        match self {
            Field::Email => "email"@,
            Field::Name => "name"@,
        }
    }

    /// The key as text.
    pub fn as_str(self) -> (key: &'static str)
        ensures
            key@ == self.key(),
    {
        match self {
            Field::Email => "email",
            Field::Name => "name",
        }
    }
}

/// Why a body is not a subscription form.
#[derive(Clone, Copy, Debug, PartialEq, Eq, Structural)]
pub enum FormError {
    /// The body could not be decoded as URL-encoded form data.
    Malformed,
    /// The field occurs more than once.
    Duplicate(Field),
    /// The field does not occur.
    Missing(Field),
    /// The field occurs once, with no text in it.
    Empty(Field),
}

/// The decoded form, as a pair of character sequences.
pub struct FormDataView {
    pub email: Seq<char>,
    pub name: Seq<char>,
}

/// The two fields of a subscription form, percent-decoded, otherwise verbatim.
#[derive(Debug, PartialEq, Eq)]
pub struct FormData {
    pub email: String,
    pub name: String,
}

impl View for FormData {
    type V = FormDataView;

    open spec fn view(&self) -> FormDataView {
        FormDataView { email: self.email@, name: self.name@ }
    }
}

/// The values that `pairs` holds under `key`, in the order of the body.
pub open spec fn values_of(pairs: Seq<(Seq<char>, Seq<char>)>, key: Seq<char>) -> Seq<Seq<char>> {
    pairs.filter(|p: (Seq<char>, Seq<char>)| p.0 == key).map_values(
        |p: (Seq<char>, Seq<char>)| p.1,
    )
}

/// The form that a sequence of decoded pairs stands for.
///
/// Each of the two fields has to occur exactly once; pairs under any other
/// key are passed over. A repeated field is reported before a missing one,
/// and `email` before `name`.
pub open spec fn form_of(pairs: Seq<(Seq<char>, Seq<char>)>) -> Result<FormDataView, FormError> {
    let emails = values_of(pairs, Field::Email.key());
    let names = values_of(pairs, Field::Name.key());
    if emails.len() > 1 {
        Err(FormError::Duplicate(Field::Email))
    } else if names.len() > 1 {
        Err(FormError::Duplicate(Field::Name))
    } else if emails.len() == 0 {
        Err(FormError::Missing(Field::Email))
    } else if names.len() == 0 {
        Err(FormError::Missing(Field::Name))
    } else {
        Ok(FormDataView { email: emails[0], name: names[0] })
    }
}

/// The view of a parsing result: the form by its view, the error as it is.
pub open spec fn form_result_view(r: Result<FormData, FormError>) -> Result<
    FormDataView,
    FormError,
> {
    match r {
        Ok(form) => Ok(form@),
        Err(e) => Err(e),
    }
}

/// Appending one pair appends its value to the values under its key, and
/// leaves the values under every other key as they were.
pub proof fn lemma_values_of_push(
    pairs: Seq<(Seq<char>, Seq<char>)>,
    pair: (Seq<char>, Seq<char>),
    key: Seq<char>,
)
    ensures
        values_of(pairs.push(pair), key) == if pair.0 == key {
            values_of(pairs, key).push(pair.1)
        } else {
            values_of(pairs, key)
        },
{
    reveal_with_fuel(Seq::filter, 2);
    assert(pairs.push(pair).drop_last() =~= pairs);
    if pair.0 == key {
        assert(values_of(pairs.push(pair), key) =~= values_of(pairs, key).push(pair.1));
    }
}

/// No pairs, no values.
pub proof fn lemma_values_of_empty(key: Seq<char>)
    ensures
        values_of(Seq::empty(), key) == Seq::<Seq<char>>::empty(),
{
    reveal_with_fuel(Seq::filter, 1);
    assert(values_of(Seq::empty(), key) =~= Seq::<Seq<char>>::empty());
}

/// The error type of the `serde_urlencoded` decoder, carried through unread.
#[verifier::external_type_specification]
#[verifier::external_body]
pub struct ExDecodeError(serde_urlencoded::de::Error);

/// The pairs that `serde_urlencoded::from_bytes` decodes from a body, each
/// key and value percent-decoded; `None` where it reports an error.
pub uninterp spec fn urlencoded_pairs(body: Seq<u8>) -> Option<Seq<(Seq<char>, Seq<char>)>>;

/// Calls `serde_urlencoded::from_bytes` for a list of string pairs.
///
/// Trusted: the decoder's outcome depends on the bytes alone, so it is
/// given the name [`urlencoded_pairs`]; nothing more is claimed of it.
#[verifier::external_body]
fn decode_pairs(body: &[u8]) -> (r: Result<Vec<(String, String)>, serde_urlencoded::de::Error>)
    ensures
        r is Ok <==> urlencoded_pairs(body@) is Some,
        r is Ok ==> urlencoded_pairs(body@) == Some(r->Ok_0.deep_view()),
{
    serde_urlencoded::from_bytes::<Vec<(String, String)>>(body)
}

/// The form that a raw body stands for: the decoder's pairs read as a form,
/// or `Malformed` where the decoder gives up.
pub open spec fn decoded_form(body: Seq<u8>) -> Result<FormDataView, FormError> {
    match urlencoded_pairs(body) {
        Some(pairs) => form_of(pairs),
        None => Err(FormError::Malformed),
    }
}

/// Whether a raw body decodes to pairs none of which is under the field's key.
pub open spec fn body_lacks(body: Seq<u8>, field: Field) -> bool {
    match urlencoded_pairs(body) {
        Some(pairs) => values_of(pairs, field.key()).len() == 0,
        None => false,
    }
}

/// What the scan has seen of one field up to some pair.
struct Seen {
    first: Option<String>,
    repeated: bool,
}

impl Seen {
    /// Whether the record agrees with the values met so far.
    spec fn tracks(&self, values: Seq<Seq<char>>) -> bool {
        &&& self.first is None <==> values.len() == 0
        &&& self.first is Some ==> self.first->Some_0@ == values[0]
        &&& self.repeated <==> values.len() > 1
    }

    fn new() -> (seen: Seen)
        ensures
            seen.tracks(Seq::empty()),
    {
        Seen { first: None, repeated: false }
    }

    fn note(&mut self, value: &String)
        ensures
            forall|values: Seq<Seq<char>>|
                old(self).tracks(values) ==> #[trigger] final(self).tracks(values.push(value@)),
    {
        if self.first.is_some() {
            self.repeated = true;
        } else {
            self.first = Some(value.clone());
        }
    }
}

impl FormData {
    /// Decodes a URL-encoded body and reads the form out of it.
    pub fn parse(body: &[u8]) -> (r: Result<FormData, FormError>)
        ensures
            form_result_view(r) == decoded_form(body@),
    {
        match decode_pairs(body) {
            Ok(pairs) => FormData::from_pairs(&pairs),
            Err(_) => Err(FormError::Malformed),
        }
    }

    /// Reads the form out of decoded pairs.
    ///
    /// Succeeds exactly when `email` and `name` each occur once, and then
    /// returns their values unchanged.
    pub fn from_pairs(pairs: &Vec<(String, String)>) -> (r: Result<FormData, FormError>)
        ensures
            form_result_view(r) == form_of(pairs.deep_view()),
    {
        let ghost decoded = pairs.deep_view();
        let mut email = Seen::new();
        let mut name = Seen::new();
        proof {
            lemma_values_of_empty(Field::Email.key());
            lemma_values_of_empty(Field::Name.key());
            assert(decoded.take(0) =~= Seq::empty());
        }
        let mut i: usize = 0;
        while i < pairs.len()
            invariant
                i <= pairs.len(),
                decoded == pairs.deep_view(),
                email.tracks(values_of(decoded.take(i as int), Field::Email.key())),
                name.tracks(values_of(decoded.take(i as int), Field::Name.key())),
            decreases pairs.len() - i,
        {
            let pair = &pairs[i];
            proof {
                assert(decoded.take(i + 1) =~= decoded.take(i as int).push(decoded[i as int]));
                assert(decoded[i as int] == (pair.0@, pair.1@));
                lemma_values_of_push(decoded.take(i as int), decoded[i as int], Field::Email.key());
                lemma_values_of_push(decoded.take(i as int), decoded[i as int], Field::Name.key());
            }
            if text_eq(pair.0.as_str(), Field::Email.as_str()) {
                email.note(&pair.1);
            }
            if text_eq(pair.0.as_str(), Field::Name.as_str()) {
                name.note(&pair.1);
            }
            i += 1;
        }
        assert(decoded.take(i as int) =~= decoded);
        if email.repeated {
            return Err(FormError::Duplicate(Field::Email));
        }
        if name.repeated {
            return Err(FormError::Duplicate(Field::Name));
        }
        match (email.first, name.first) {
            (None, _) => Err(FormError::Missing(Field::Email)),
            (Some(_), None) => Err(FormError::Missing(Field::Name)),
            (Some(email), Some(name)) => Ok(FormData { email, name }),
        }
    }
}

} // verus!
