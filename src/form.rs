//! Decoding of an `application/x-www-form-urlencoded` subscription form.
//!
//! The body is first split into decoded name/value pairs by
//! `serde_urlencoded`; the fields of the form are then picked out of those
//! pairs the way a derived struct visitor does it: each field must come
//! exactly once, other names are ignored.
use vstd::prelude::*;

verus! {

/// A decoded pair of the body: its name and its value.
pub type PairView = (Seq<char>, Seq<char>);

/// The name under which the email address is sent.
pub open spec fn email_key() -> Seq<char> {
    seq!['e', 'm', 'a', 'i', 'l']
}

/// The name under which the subscriber's name is sent.
pub open spec fn name_key() -> Seq<char> {
    seq!['n', 'a', 'm', 'e']
}

/// The fields of the subscription form.
#[derive(Clone, Copy, Debug, PartialEq, Eq, Structural)]
pub enum FormField {
    Email,
    Name,
}

/// Why a body is not a subscription form.
#[derive(Clone, Copy, Debug, PartialEq, Eq, Structural)]
pub enum FormError {
    /// The body could not be split into name/value pairs.
    Undecodable,
    /// A field of the form is absent.
    MissingField(FormField),
    /// A field of the form is given more than once.
    DuplicateField(FormField),
}

/// A subscription form: the email address and the name of a subscriber.
/// Neither is checked for its shape.
#[derive(Debug)]
pub struct FormData {
    pub email: String,
    pub name: String,
}

/// The fields of a form as character sequences.
pub struct FormView {
    pub email: Seq<char>,
    pub name: Seq<char>,
}

impl View for FormData {
    type V = FormView;

    open spec fn view(&self) -> FormView {
        FormView { email: self.email@, name: self.name@ }
    }
}

/// The pairs of a url-encoded body, percent-decoded, in the order in which
/// they appear; `None` where the body cannot be decoded.
pub uninterp spec fn form_pairs_of(body: Seq<u8>) -> Option<Seq<PairView>>;

/// The pairs of a vector of strings as character sequences.
pub open spec fn pairs_view(v: Seq<(String, String)>) -> Seq<PairView> {
    v.map_values(|p: (String, String)| (p.0@, p.1@))
}

/// What a walk over the pairs has gathered: the value of each field seen so
/// far, or the first field seen twice.
pub open spec fn gather_fields(pairs: Seq<PairView>) -> Result<
    (Option<Seq<char>>, Option<Seq<char>>),
    FormError,
>
    decreases pairs.len(),
{
    if pairs.len() == 0 {
        Ok((None, None))
    } else {
        match gather_fields(pairs.drop_last()) {
            Err(e) => Err(e),
            Ok((email, name)) => {
                let (k, v) = pairs.last();
                if k == email_key() {
                    if email is Some {
                        Err(FormError::DuplicateField(FormField::Email))
                    } else {
                        Ok((Some(v), name))
                    }
                } else if k == name_key() {
                    if name is Some {
                        Err(FormError::DuplicateField(FormField::Name))
                    } else {
                        Ok((email, Some(v)))
                    }
                } else {
                    Ok((email, name))
                }
            },
        }
    }
}

/// The form that the pairs make up, or why they make up none. A field seen
/// twice is reported before an absent one, and an absent email before an
/// absent name.
pub open spec fn form_of_pairs(pairs: Seq<PairView>) -> Result<FormView, FormError> {
    match gather_fields(pairs) {
        Err(e) => Err(e),
        Ok((None, _)) => Err(FormError::MissingField(FormField::Email)),
        Ok((Some(_), None)) => Err(FormError::MissingField(FormField::Name)),
        Ok((Some(email), Some(name))) => Ok(FormView { email, name }),
    }
}

/// The form that a body makes up, or why it makes up none.
pub open spec fn form_of_body(body: Seq<u8>) -> Result<FormView, FormError> {
    match form_pairs_of(body) {
        None => Err(FormError::Undecodable),
        Some(pairs) => form_of_pairs(pairs),
    }
}

/// A decoding result seen through the view of the form.
pub open spec fn form_result_view(r: Result<FormData, FormError>) -> Result<FormView, FormError> {
    match r {
        Ok(f) => Ok(f@),
        Err(e) => Err(e),
    }
}

/// An optional string as an optional character sequence.
pub open spec fn opt_view(o: Option<String>) -> Option<Seq<char>> {
    match o {
        Some(s) => Some(s@),
        None => None,
    }
}

/// Decoded pairs, or none, as character sequences.
pub open spec fn opt_pairs_view(r: Option<Vec<(String, String)>>) -> Option<Seq<PairView>> {
    match r {
        Some(v) => Some(pairs_view(v@)),
        None => None,
    }
}

/// Relies on `serde_urlencoded::from_bytes` into a list of string pairs: it
/// splits the body on `&` and then on the first `=`, turns `+` into a space,
/// percent-decodes each part and keeps the pairs in order. An empty body
/// holds no pair.
#[verifier::external_body]
fn decode_pairs(body: &[u8]) -> (r: Option<Vec<(String, String)>>)
    ensures
        opt_pairs_view(r) == form_pairs_of(body@),
        body@.len() == 0 && r is Some ==> r->Some_0@.len() == 0,
{
    serde_urlencoded::from_bytes::<Vec<(String, String)>>(body).ok()
}

/// Once a walk over the pairs has failed, the pairs after it change nothing.
proof fn lemma_gather_error_stays(pairs: Seq<PairView>, j: int)
    requires
        0 <= j <= pairs.len(),
        gather_fields(pairs.take(j)) is Err,
    ensures
        gather_fields(pairs) == gather_fields(pairs.take(j)),
    decreases pairs.len() - j,
{
    if j < pairs.len() {
        assert(pairs.take(j + 1).drop_last() =~= pairs.take(j));
        lemma_gather_error_stays(pairs, j + 1);
    } else {
        assert(pairs.take(j) =~= pairs);
    }
}

/// Picks the fields of the form out of decoded pairs.
pub fn form_from_pairs(pairs: &Vec<(String, String)>) -> (r: Result<FormData, FormError>)
    ensures
        form_result_view(r) == form_of_pairs(pairs_view(pairs@)),
{
    let ghost pv = pairs_view(pairs@);
    let email_name = "email".to_owned();
    let name_name = "name".to_owned();
    proof {
        reveal_strlit("email");
        reveal_strlit("name");
    }
    assert(email_name@ == email_key());
    assert(name_name@ == name_key());
    let mut email: Option<String> = None;
    let mut name: Option<String> = None;
    let mut i: usize = 0;
    assert(pv.take(0) =~= Seq::<PairView>::empty());
    while i < pairs.len()
        invariant
            0 <= i <= pairs@.len(),
            pv == pairs_view(pairs@),
            email_name@ == email_key(),
            name_name@ == name_key(),
            gather_fields(pv.take(i as int)) == Ok::<_, FormError>((opt_view(email), opt_view(name))),
        decreases pairs@.len() - i,
    {
        let ghost before = pv.take(i as int);
        assert(pv.take(i + 1).drop_last() =~= before);
        assert(pv.take(i + 1).last() == (pairs@[i as int].0@, pairs@[i as int].1@));
        let k = &pairs[i].0;
        let v = &pairs[i].1;
        if *k == email_name {
            if email.is_some() {
                proof {
                    lemma_gather_error_stays(pv, i + 1);
                }
                return Err(FormError::DuplicateField(FormField::Email));
            }
            email = Some(v.clone());
        } else if *k == name_name {
            if name.is_some() {
                proof {
                    lemma_gather_error_stays(pv, i + 1);
                }
                return Err(FormError::DuplicateField(FormField::Name));
            }
            name = Some(v.clone());
        }
        i = i + 1;
    }
    assert(pv.take(i as int) =~= pv);
    match (email, name) {
        (None, _) => Err(FormError::MissingField(FormField::Email)),
        (Some(_), None) => Err(FormError::MissingField(FormField::Name)),
        (Some(email), Some(name)) => Ok(FormData { email, name }),
    }
}

/// Decodes a url-encoded body into a subscription form. An empty body is
/// no form.
pub fn parse_form(body: &[u8]) -> (r: Result<FormData, FormError>)
    ensures
        form_result_view(r) == form_of_body(body@),
        body@.len() == 0 ==> r is Err,
{
    match decode_pairs(body) {
        None => Err(FormError::Undecodable),
        Some(pairs) => {
            if pairs.len() == 0 {
                assert(pairs_view(pairs@) =~= Seq::<PairView>::empty());
            }
            form_from_pairs(&pairs)
        },
    }
}

/// True when some pair carries the given name.
pub open spec fn has_key(pairs: Seq<PairView>, key: Seq<char>) -> bool {
    exists|i: int| 0 <= i < pairs.len() && #[trigger] pairs[i].0 == key
}

/// The value of a field that a walk has gathered comes from a pair that
/// carries the field's name.
proof fn lemma_gathered_fields_occur(pairs: Seq<PairView>)
    ensures
        gather_fields(pairs) matches Ok((email, name)) ==> (email is Some ==> exists|i: int|
            0 <= i < pairs.len() && #[trigger] pairs[i] == (email_key(), email->Some_0)) && (
        name is Some ==> exists|i: int|
            0 <= i < pairs.len() && #[trigger] pairs[i] == (name_key(), name->Some_0)),
    decreases pairs.len(),
{
    if pairs.len() > 0 {
        let prefix = pairs.drop_last();
        lemma_gathered_fields_occur(prefix);
        assert forall|i: int| 0 <= i < prefix.len() implies #[trigger] prefix[i] == pairs[i] by {}
        assert(pairs[pairs.len() - 1] == pairs.last());
    }
}

/// A form is decoded only when both of its fields are present, and each of
/// its values is the value of a pair that carries that field's name.
pub proof fn form_fields_come_from_pairs(pairs: Seq<PairView>)
    ensures
        form_of_pairs(pairs) matches Ok(f) ==> (exists|i: int|
            0 <= i < pairs.len() && #[trigger] pairs[i] == (email_key(), f.email)) && (exists|
            i: int,
        |
            0 <= i < pairs.len() && #[trigger] pairs[i] == (name_key(), f.name)),
{
    lemma_gathered_fields_occur(pairs);
}

/// A body whose pairs lack the email or the name is no form.
pub proof fn incomplete_form_is_rejected(pairs: Seq<PairView>)
    requires
        !has_key(pairs, email_key()) || !has_key(pairs, name_key()),
    ensures
        form_of_pairs(pairs) is Err,
{
    lemma_gathered_fields_occur(pairs);
    if let Ok(f) = form_of_pairs(pairs) {
        let i = choose|i: int| 0 <= i < pairs.len() && #[trigger] pairs[i] == (email_key(), f.email);
        let j = choose|j: int| 0 <= j < pairs.len() && #[trigger] pairs[j] == (name_key(), f.name);
        assert(pairs[i].0 == email_key());
        assert(pairs[j].0 == name_key());
    }
}

/// True when the pair at `i` is the only one that carries the given name.
pub open spec fn only_at(pairs: Seq<PairView>, key: Seq<char>, i: int) -> bool {
    &&& 0 <= i < pairs.len()
    &&& pairs[i].0 == key
    &&& forall|k: int| 0 <= k < pairs.len() && k != i ==> #[trigger] pairs[k].0 != key
}

/// What a walk has gathered after the first `m` pairs, when each field is
/// carried by one pair only.
proof fn lemma_gather_single_fields(pairs: Seq<PairView>, i: int, j: int, m: int)
    requires
        only_at(pairs, email_key(), i),
        only_at(pairs, name_key(), j),
        0 <= m <= pairs.len(),
    ensures
        gather_fields(pairs.take(m)) == Ok::<_, FormError>(
            (
                if i < m {
                    Some(pairs[i].1)
                } else {
                    None
                },
                if j < m {
                    Some(pairs[j].1)
                } else {
                    None
                },
            ),
        ),
    decreases m,
{
    if m == 0 {
        assert(pairs.take(0) =~= Seq::<PairView>::empty());
    } else {
        lemma_gather_single_fields(pairs, i, j, m - 1);
        assert(pairs.take(m).drop_last() =~= pairs.take(m - 1));
        assert(pairs.take(m).last() == pairs[m - 1]);
        assert(email_key() != name_key()) by {
            assert(email_key().len() != name_key().len());
        }
    }
}

/// Pairs in which the email and the name are each carried by exactly one
/// pair make up the form of those two values, whatever other pairs they hold.
pub proof fn single_fields_make_a_form(pairs: Seq<PairView>, i: int, j: int)
    requires
        only_at(pairs, email_key(), i),
        only_at(pairs, name_key(), j),
    ensures
        form_of_pairs(pairs) == Ok::<_, FormError>(FormView { email: pairs[i].1, name: pairs[j].1 }),
{
    lemma_gather_single_fields(pairs, i, j, pairs.len() as int);
    assert(pairs.take(pairs.len() as int) =~= pairs);
}

} // verus!
