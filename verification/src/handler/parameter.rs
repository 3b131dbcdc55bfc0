//! Parameters: keys, listing under a path, and what a read shows.

use vstd::prelude::*;

use crate::db::queries::parameter::{Parameter, ParameterType};
use crate::text::{chars_of, concat2, concat3, opt_view, clone_opt};
use crate::utils::api_response::{ApiError, ApiErrorKind};

verus! {

/// A request to create a parameter; the key is given without its leading `/`.
#[derive(Debug)]
pub struct CreateParameterRequest {
    pub key: String,
    pub type_: ParameterType,
    pub value: String,
}

/// A parameter as answered.
#[derive(Debug)]
pub struct ParameterResponse {
    pub key: String,
    pub type_: ParameterType,
    pub value: Option<String>,
    pub created_at: i64,
    pub updated_at: i64,
}

/// Whether a read of a secret parameter shows its decrypted value.
#[derive(Debug)]
pub struct GetParameterQuery {
    pub with_decryption: bool,
}

/// The path a listing is restricted to, if any.
#[derive(Debug)]
pub struct ListParametersQuery {
    pub path: Option<String>,
}

/// A request to change the value of a parameter.
#[derive(Debug)]
pub struct UpdateParameterRequest {
    pub value: String,
}

/// The stored key of a key given in a request path: with a leading `/`.
pub open spec fn stored_key(raw: Seq<char>) -> Seq<char> {
    seq!['/'] + raw
}

/// The stored key of `raw`.
pub fn parameter_key(raw: &str) -> (k: String)
    ensures
        k@ == stored_key(raw@),
{
    let k = concat2("/", raw);
    assert("/"@ == seq!['/']) by {
        reveal_strlit("/");
    }
    k
}

/// Whether `key` is `path` itself or lies below it.
pub open spec fn is_under(path: Seq<char>, key: Seq<char>) -> bool {
    key == path || (key.len() > path.len() && key.subrange(0, path.len() as int + 1) == path.push('/'))
}

/// Whether `key` is `path` itself or lies below it.
pub fn under_path(path: &str, key: &str) -> (b: bool)
    ensures
        b == is_under(path@, key@),
{
    let p = chars_of(path);
    let k = chars_of(key);
    if k.len() == p.len() {
        let mut i: usize = 0;
        while i < p.len()
            invariant
                p@ == path@,
                k@ == key@,
                k.len() == p.len(),
                i <= p.len(),
                forall|j: int| 0 <= j < i ==> k@[j] == p@[j],
            decreases p.len() - i,
        {
            if k[i] != p[i] {
                return false;
            }
            i = i + 1;
        }
        assert(k@ =~= p@);
        return true;
    }
    if k.len() <= p.len() {
        return false;
    }
    let mut i: usize = 0;
    while i < p.len()
        invariant
            p@ == path@,
            k@ == key@,
            k.len() > p.len(),
            i <= p.len(),
            forall|j: int| 0 <= j < i ==> k@[j] == p@[j],
        decreases p.len() - i,
    {
        if k[i] != p[i] {
            assert(k@.subrange(0, path@.len() as int + 1)[i as int] != path@.push('/')[i as int]);
            return false;
        }
        i = i + 1;
    }
    if k[p.len()] != '/' {
        assert(k@.subrange(0, path@.len() as int + 1)[p.len() as int] != path@.push('/')[p.len() as int]);
        return false;
    }
    assert(k@.subrange(0, path@.len() as int + 1) =~= path@.push('/'));
    true
}

/// A parameter as answered, as plain values.
pub struct ParameterView {
    pub key: Seq<char>,
    pub type_: ParameterType,
    pub value: Option<Seq<char>>,
    pub created_at: i64,
    pub updated_at: i64,
}

pub open spec fn parameter_view(p: Parameter) -> ParameterView {
    ParameterView {
        key: p.key@,
        type_: p.type_,
        value: opt_view(p.value),
        created_at: p.created_at,
        updated_at: p.updated_at,
    }
}

pub open spec fn response_view(r: ParameterResponse) -> ParameterView {
    ParameterView {
        key: r.key@,
        type_: r.type_,
        value: opt_view(r.value),
        created_at: r.created_at,
        updated_at: r.updated_at,
    }
}

/// The parameters a listing shows, in order: those under `path`, or all of
/// them when no path is given.
pub open spec fn listing(ps: Seq<Parameter>, path: Option<Seq<char>>) -> Seq<ParameterView>
    decreases ps.len(),
{
    if ps.len() == 0 {
        Seq::empty()
    } else {
        let rest = listing(ps.drop_last(), path);
        let p = ps.last();
        if path is None || is_under(path->0, p.key@) {
            rest.push(parameter_view(p))
        } else {
            rest
        }
    }
}

/// The parameters under `path` (all of them when it is `None`), in order.
pub fn list_parameters_under(params: Vec<Parameter>, path: &Option<String>) -> (r: Vec<
    ParameterResponse,
>)
    ensures
        r@.map_values(|x: ParameterResponse| response_view(x)) == listing(params@, opt_view(*path)),
{
    let mut out: Vec<ParameterResponse> = Vec::new();
    let mut i: usize = 0;
    while i < params.len()
        invariant
            i <= params.len(),
            out@.map_values(|x: ParameterResponse| response_view(x)) == listing(
                params@.take(i as int),
                opt_view(*path),
            ),
        decreases params.len() - i,
    {
        let p = &params[i];
        let keep = match path {
            Some(pa) => under_path(pa.as_str(), p.key.as_str()),
            None => true,
        };
        let ghost before = out@.map_values(|x: ParameterResponse| response_view(x));
        assert(params@.take(i + 1).drop_last() =~= params@.take(i as int));
        assert(params@.take(i + 1).last() == params@[i as int]);
        if keep {
            out.push(
                ParameterResponse {
                    key: p.key.clone(),
                    type_: p.type_,
                    value: clone_opt(&p.value),
                    created_at: p.created_at,
                    updated_at: p.updated_at,
                },
            );
            assert(out@.map_values(|x: ParameterResponse| response_view(x)) =~= before.push(
                parameter_view(params@[i as int]),
            ));
        }
        i = i + 1;
    }
    assert(params@.take(params.len() as int) =~= params@);
    out
}

/// What a read shows of a parameter's value.
#[derive(Debug, Clone, Copy, PartialEq, Eq, Structural)]
pub enum ValueShown {
    /// The stored plain value.
    Stored,
    /// The secret, decrypted.
    Decrypted,
    /// Nothing: a secret read without decryption.
    Hidden,
}

/// A plain parameter shows its value; a secret one its decrypted value
/// only when the read asks for decryption.
pub open spec fn value_shown_for(t: ParameterType, with_decryption: bool) -> ValueShown {
    match t {
        ParameterType::String => ValueShown::Stored,
        ParameterType::SecureString => if with_decryption {
            ValueShown::Decrypted
        } else {
            ValueShown::Hidden
        },
    }
}

/// What a read of a parameter of type `t` shows.
pub fn value_shown(t: ParameterType, with_decryption: bool) -> (v: ValueShown)
    ensures
        v == value_shown_for(t, with_decryption),
{
    match t {
        ParameterType::String => ValueShown::Stored,
        ParameterType::SecureString => if with_decryption {
            ValueShown::Decrypted
        } else {
            ValueShown::Hidden
        },
    }
}

/// The answer for parameter `p` showing `value`.
pub fn parameter_response(p: Parameter, value: Option<String>) -> (r: ParameterResponse)
    ensures
        r.key == p.key,
        r.type_ == p.type_,
        r.value == value,
        r.created_at == p.created_at,
        r.updated_at == p.updated_at,
{
    ParameterResponse {
        key: p.key,
        type_: p.type_,
        value,
        created_at: p.created_at,
        updated_at: p.updated_at,
    }
}

/// The message when no parameter has that key.
pub fn parameter_not_found(key: &str) -> (e: ApiError)
    ensures
        e.spec_view() == (ApiErrorKind::NotFound, "parameter "@ + key@ + " not found"@),
{
    ApiError::not_found(concat3("parameter ", key, " not found"))
}

/// The message when a parameter with that key exists already.
pub fn parameter_exists(key: &str) -> (e: ApiError)
    ensures
        e.spec_view() == (ApiErrorKind::Conflict, "parameter "@ + key@ + " already exists"@),
{
    ApiError::conflict(concat3("parameter ", key, " already exists"))
}

/// The error when a secret parameter disappears while it is read.
pub fn parameter_vanished_on_read(key: &str) -> (e: ApiError)
    ensures
        e.spec_view() == (ApiErrorKind::Internal, "parameter "@ + key@
            + " vanished between fetch_one and fetch_encrypted"@),
{
    ApiError::internal(concat3("parameter ", key, " vanished between fetch_one and fetch_encrypted"))
}

/// The error when a parameter disappears while it is updated.
pub fn parameter_vanished_on_update(key: &str) -> (e: ApiError)
    ensures
        e.spec_view() == (ApiErrorKind::Internal, "parameter "@ + key@ + " vanished during update"@),
{
    ApiError::internal(concat3("parameter ", key, " vanished during update"))
}

} // verus!

verus! {

/// A listing restricted to a path shows only parameters under it, and a
/// listing without a path shows every parameter.
pub proof fn law_listing_respects_path(ps: Seq<Parameter>, path: Option<Seq<char>>)
    ensures
        forall|i: int|
            #![trigger listing(ps, path)[i]]
            0 <= i < listing(ps, path).len() && path is Some ==> is_under(
                path->0,
                listing(ps, path)[i].key,
            ),
        path is None ==> listing(ps, path).len() == ps.len(),
    decreases ps.len(),
{
    if ps.len() > 0 {
        law_listing_respects_path(ps.drop_last(), path);
    }
}

/// A path contains itself and every key one level or more below it.
pub proof fn law_path_contains_itself_and_children(path: Seq<char>, rest: Seq<char>)
    ensures
        is_under(path, path),
        is_under(path, path.push('/') + rest),
{
    assert((path.push('/') + rest).subrange(0, path.len() as int + 1) =~= path.push('/'));
}

} // verus!

verus! {

/// A plain value is always shown as stored; a secret one is shown only
/// when decryption is asked for, and then decrypted.
pub proof fn law_secrets_shown_only_on_request(with_decryption: bool)
    ensures
        value_shown_for(ParameterType::String, with_decryption) == ValueShown::Stored,
        value_shown_for(ParameterType::SecureString, true) == ValueShown::Decrypted,
        value_shown_for(ParameterType::SecureString, false) == ValueShown::Hidden,
{
}

} // verus!

verus! {

/// A path holds only keys that start with it, and not a sibling that merely
/// shares its first characters: `/db` holds `/db/url` but not `/dbx`.
pub proof fn law_path_excludes_siblings(path: Seq<char>, key: Seq<char>, q: Seq<char>)
    ensures
        is_under(path, key) ==> key.len() >= path.len() && key.subrange(0, path.len() as int) == path,
        q.len() > 0 && q[0] != '/' ==> !is_under(path, path + q),
{
    if is_under(path, key) && key != path {
        assert(key.subrange(0, path.len() as int) =~= key.subrange(0, path.len() as int + 1).subrange(
            0,
            path.len() as int,
        ));
        assert(path.push('/').subrange(0, path.len() as int) =~= path);
    }
    if q.len() > 0 && q[0] != '/' {
        let k = path + q;
        assert(k != path) by {
            assert(k.len() != path.len());
        }
        if k.len() > path.len() {
            assert(k.subrange(0, path.len() as int + 1)[path.len() as int] == q[0]);
            assert(path.push('/')[path.len() as int] == '/');
        }
    }
}

/// A listing under a path holds every parameter under it: nothing under
/// the path is left out.
pub proof fn law_listing_is_complete(ps: Seq<Parameter>, path: Option<Seq<char>>, i: int)
    requires
        0 <= i < ps.len(),
        path is None || is_under(path->0, ps[i].key@),
    ensures
        listing(ps, path).contains(parameter_view(ps[i])),
    decreases ps.len(),
{
    let rest = ps.drop_last();
    let l = listing(ps, path);
    if i == ps.len() - 1 {
        assert(l[l.len() - 1] == parameter_view(ps[i]));
    } else {
        assert(rest[i] == ps[i]);
        law_listing_is_complete(rest, path, i);
        let lr = listing(rest, path);
        let j = choose|j: int| 0 <= j < lr.len() && lr[j] == parameter_view(ps[i]);
        if path is None || is_under(path->0, ps.last().key@) {
            assert(l[j] == lr[j]);
        }
    }
}

} // verus!
