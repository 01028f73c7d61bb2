use vstd::prelude::*;
use crate::response::{
    empty_response, Response, ResponseView, STATUS_BAD_REQUEST, STATUS_INTERNAL_SERVER_ERROR,
    STATUS_OK,
};

verus! {

/// The error that `serde_urlencoded` reports: serde's plain value error.
#[verifier::external_type_specification]
#[verifier::external_body]
pub struct ExDecodeError(serde::de::value::Error);

/// A form payload decoded into its key/value pairs, in the order they came.
pub type FormPairs = Seq<(Seq<char>, Seq<char>)>;

/// The pairs that a form-encoded body decodes to, or `None` when it cannot
/// be decoded.
pub uninterp spec fn decoded_form(body: Seq<u8>) -> Option<FormPairs>;

/// The text of each decoded pair.
pub open spec fn pairs_view(v: Seq<(String, String)>) -> FormPairs {
    v.map_values(|p: (String, String)| (p.0@, p.1@))
}

/// Relies on `serde_urlencoded::from_bytes`, the decoder behind the web
/// framework's form extractor: it splits the body on `&` and `=` and
/// percent-decodes each key and value (`+` is a space).
#[verifier::external_body]
fn decode_pairs(body: &[u8]) -> (r: Result<Vec<(String, String)>, serde::de::value::Error>)
    ensures
        match r {
            Ok(v) => decoded_form(body@) == Some(pairs_view(v@)),
            Err(_) => decoded_form(body@) is None,
        },
{
    serde_urlencoded::from_bytes::<Vec<(String, String)>>(body)
}

/// The key of the subscriber's email address.
pub open spec fn email_key() -> Seq<char> {
    "email"@
}

/// The key of the subscriber's name.
pub open spec fn name_key() -> Seq<char> {
    "name"@
}

/// How many pairs carry `key`.
pub open spec fn key_count(pairs: FormPairs, key: Seq<char>) -> nat
    decreases pairs.len(),
{
    if pairs.len() == 0 {
        0
    } else {
        key_count(pairs.drop_last(), key) + if pairs.last().0 == key {
            1nat
        } else {
            0nat
        }
    }
}

/// The value of the last pair that carries `key` (the empty text if none does).
pub open spec fn value_for(pairs: FormPairs, key: Seq<char>) -> Seq<char>
    decreases pairs.len(),
{
    if pairs.len() == 0 {
        Seq::empty()
    } else if pairs.last().0 == key {
        pairs.last().1
    } else {
        value_for(pairs.drop_last(), key)
    }
}

/// The fields of a subscription form.
pub struct FormData {
    pub email: String,
    pub name: String,
}

/// Why a subscription form was rejected.
#[derive(PartialEq, Eq, Structural, Clone, Copy, Debug)]
pub enum FormError {
    /// The body is not form-encoded text.
    Malformed,
    /// A field occurs more than once.
    DuplicateField,
    /// There is no `email` field.
    MissingEmail,
    /// There is no `name` field.
    MissingName,
}

/// What a form of the given pairs yields: its email and name, or why it is
/// rejected. Unknown keys are ignored; each field must occur exactly once. A
/// repeated field is reported before a missing one, and a missing email before
/// a missing name.
pub open spec fn form_outcome(pairs: FormPairs) -> Result<(Seq<char>, Seq<char>), FormError> {
    if key_count(pairs, email_key()) > 1 || key_count(pairs, name_key()) > 1 {
        Err(FormError::DuplicateField)
    } else if key_count(pairs, email_key()) == 0 {
        Err(FormError::MissingEmail)
    } else if key_count(pairs, name_key()) == 0 {
        Err(FormError::MissingName)
    } else {
        Ok((value_for(pairs, email_key()), value_for(pairs, name_key())))
    }
}

/// What a form-encoded body yields.
pub open spec fn body_outcome(body: Seq<u8>) -> Result<(Seq<char>, Seq<char>), FormError> {
    match decoded_form(body) {
        None => Err(FormError::Malformed),
        Some(pairs) => form_outcome(pairs),
    }
}

/// Whether `r` carries exactly the outcome `o`.
pub open spec fn matches_outcome(
    r: Result<FormData, FormError>,
    o: Result<(Seq<char>, Seq<char>), FormError>,
) -> bool {
    match r {
        Ok(f) => o == Ok::<(Seq<char>, Seq<char>), FormError>((f.email@, f.name@)),
        Err(e) => o == Err::<(Seq<char>, Seq<char>), FormError>(e),
    }
}

/// Reads the subscription fields out of decoded form pairs.
pub fn form_from_pairs(pairs: &Vec<(String, String)>) -> (r: Result<FormData, FormError>)
    ensures
        matches_outcome(r, form_outcome(pairs_view(pairs@))),
{
    let ghost pv = pairs_view(pairs@);
    let email_str = String::from_str("email");
    let name_str = String::from_str("name");
    let mut n_email: usize = 0;
    let mut n_name: usize = 0;
    let mut at_email: usize = 0;
    let mut at_name: usize = 0;
    let mut i: usize = 0;
    while i < pairs.len()
        invariant
            i <= pairs@.len(),
            pv == pairs_view(pairs@),
            email_str@ == email_key(),
            name_str@ == name_key(),
            n_email <= i,
            n_name <= i,
            n_email == key_count(pv.take(i as int), email_key()),
            n_name == key_count(pv.take(i as int), name_key()),
            n_email > 0 ==> at_email < i && value_for(pv.take(i as int), email_key())
                == pv[at_email as int].1,
            n_name > 0 ==> at_name < i && value_for(pv.take(i as int), name_key())
                == pv[at_name as int].1,
        decreases pairs@.len() - i,
    {
        assert(pv.take(i as int + 1).drop_last() =~= pv.take(i as int));
        if pairs[i].0 == email_str {
            n_email = n_email + 1;
            at_email = i;
        }
        if pairs[i].0 == name_str {
            n_name = n_name + 1;
            at_name = i;
        }
        i = i + 1;
    }
    assert(pv.take(pairs@.len() as int) =~= pv);
    if n_email > 1 || n_name > 1 {
        Err(FormError::DuplicateField)
    } else if n_email == 0 {
        Err(FormError::MissingEmail)
    } else if n_name == 0 {
        Err(FormError::MissingName)
    } else {
        Ok(FormData { email: pairs[at_email].1.clone(), name: pairs[at_name].1.clone() })
    }
}

/// Decodes a form-encoded body and reads the subscription fields out of it.
pub fn parse_form(body: &[u8]) -> (r: Result<FormData, FormError>)
    ensures
        matches_outcome(r, body_outcome(body@)),
{
    match decode_pairs(body) {
        Err(_) => Err(FormError::Malformed),
        Ok(pairs) => form_from_pairs(&pairs),
    }
}

/// One subscriber row: who subscribed and when.
pub struct Subscriber {
    /// A fresh unique identifier.
    pub id: u128,
    pub email: String,
    pub name: String,
    /// Microseconds since the Unix epoch.
    pub subscribed_at: i64,
}

impl Subscriber {
    /// The row for an accepted form, under an identifier and a time of
    /// subscription that the caller has drawn.
    pub fn new(form: FormData, id: u128, subscribed_at: i64) -> (r: Subscriber)
        ensures
            r.id == id,
            r.email@ == form.email@,
            r.name@ == form.name@,
            r.subscribed_at == subscribed_at,
    {
        Subscriber { id, email: form.email, name: form.name, subscribed_at }
    }
}

/// What the subscription handler does next with a request.
pub enum SubscribeStep {
    /// Answer at once, touching no storage.
    Respond(Response),
    /// Store one row with these fields, then answer by `finish_subscribe`.
    Insert(FormData),
}

/// Whether `r` is the step owed for a form whose outcome is `o`: a rejected
/// form is answered 400 with an empty body, an accepted one is stored.
pub open spec fn step_for(r: SubscribeStep, o: Result<(Seq<char>, Seq<char>), FormError>) -> bool {
    match o {
        Ok(fields) => match r {
            SubscribeStep::Insert(f) => f.email@ == fields.0 && f.name@ == fields.1,
            SubscribeStep::Respond(_) => false,
        },
        Err(_) => match r {
            SubscribeStep::Respond(resp) => resp@ == empty_response(STATUS_BAD_REQUEST),
            SubscribeStep::Insert(_) => false,
        },
    }
}

/// The step for a form that has been read: reject it, or store it.
pub fn subscribe_step(form: Result<FormData, FormError>) -> (r: SubscribeStep)
    ensures
        match form {
            Ok(f) => match r {
                SubscribeStep::Insert(g) => g.email@ == f.email@ && g.name@ == f.name@,
                SubscribeStep::Respond(_) => false,
            },
            Err(_) => match r {
                SubscribeStep::Respond(resp) => resp@ == empty_response(STATUS_BAD_REQUEST),
                SubscribeStep::Insert(_) => false,
            },
        },
{
    match form {
        Ok(f) => SubscribeStep::Insert(f),
        Err(_) => SubscribeStep::Respond(Response::empty(STATUS_BAD_REQUEST)),
    }
}

/// The subscription handler's first decision on a form-encoded body: a body
/// without exactly one `email` and one `name` is rejected before any storage
/// is touched; otherwise its fields are to be stored.
pub fn subscribe(body: &[u8]) -> (r: SubscribeStep)
    ensures
        step_for(r, body_outcome(body@)),
{
    subscribe_step(parse_form(body))
}

/// The answer once the row has been written (`saved`) or the write failed.
pub open spec fn finish_response(saved: bool) -> ResponseView {
    if saved {
        empty_response(STATUS_OK)
    } else {
        empty_response(STATUS_INTERNAL_SERVER_ERROR)
    }
}

/// The subscription handler's answer after the insert: 200 when the row was
/// written, 500 when the store failed. The failure's detail is not shown.
pub fn finish_subscribe(saved: bool) -> (r: Response)
    ensures
        r@ == finish_response(saved),
{
    if saved {
        Response::empty(STATUS_OK)
    } else {
        Response::empty(STATUS_INTERNAL_SERVER_ERROR)
    }
}

/// A form that carries an email and a name, each once and in either order,
/// is accepted with exactly those values, and once its row is stored the
/// answer is success with an empty body.
pub proof fn lemma_valid_submission_is_stored(email: Seq<char>, name: Seq<char>)
    ensures
        form_outcome(seq![(name_key(), name), (email_key(), email)]) == Ok::<
            (Seq<char>, Seq<char>),
            FormError,
        >((email, name)),
        form_outcome(seq![(email_key(), email), (name_key(), name)]) == Ok::<
            (Seq<char>, Seq<char>),
            FormError,
        >((email, name)),
        finish_response(true) == empty_response(STATUS_OK),
{
    reveal_strlit("email");
    reveal_strlit("name");
    reveal_with_fuel(key_count, 3);
    reveal_with_fuel(value_for, 3);
    assert(email_key() != name_key()) by {
        assert(email_key().len() != name_key().len());
    }
    let a = seq![(name_key(), name), (email_key(), email)];
    let b = seq![(email_key(), email), (name_key(), name)];
    assert(a.drop_last() =~= seq![(name_key(), name)]);
    assert(b.drop_last() =~= seq![(email_key(), email)]);
    assert(a.drop_last().drop_last() =~= Seq::<(Seq<char>, Seq<char>)>::empty());
    assert(b.drop_last().drop_last() =~= Seq::<(Seq<char>, Seq<char>)>::empty());
}

} // verus!
