//! Turning a parameter named by a project's environment or by a DNS
//! credential into its value.

use vstd::prelude::*;

use crate::db::queries::parameter::{Parameter, ParameterType};
use crate::text::concat3;

verus! {

/// Where the value of a referenced parameter comes from.
#[derive(Debug)]
pub enum ParameterSource {
    /// The stored plain value.
    Plain(String),
    /// The stored ciphertext, to be decrypted.
    Encrypted,
}

/// How the parameter named `key` resolves, given what the lookup found: a
/// missing parameter or a plain one without value is an error; a plain one
/// gives its value; a secret one is decrypted.
pub open spec fn resolution(key: Seq<char>, p: Option<Parameter>) -> Result<Option<Seq<char>>, Seq<char>> {
    match p {
        None => Err("parameter "@ + key + " not found"@),
        Some(p) => match p.type_ {
            ParameterType::String => match p.value {
                Some(v) => Ok(Some(v@)),
                None => Err("string parameter "@ + key + " has no value"@),
            },
            ParameterType::SecureString => Ok(None),
        },
    }
}

/// The source as plain values: the plain value, or `None` for a secret.
pub open spec fn source_view(s: ParameterSource) -> Option<Seq<char>> {
    match s {
        ParameterSource::Plain(v) => Some(v@),
        ParameterSource::Encrypted => None,
    }
}

/// How the parameter named `key` resolves, given what looking it up found.
pub fn resolve_parameter(key: &str, p: Option<Parameter>) -> (r: Result<ParameterSource, String>)
    ensures
        match r {
            Ok(s) => resolution(key@, p) == Ok::<Option<Seq<char>>, Seq<char>>(source_view(s)),
            Err(m) => resolution(key@, p) == Err::<Option<Seq<char>>, Seq<char>>(m@),
        },
{
    match p {
        None => Err(concat3("parameter ", key, " not found")),
        Some(p) => match p.type_ {
            ParameterType::String => match p.value {
                Some(v) => Ok(ParameterSource::Plain(v)),
                None => Err(concat3("string parameter ", key, " has no value")),
            },
            ParameterType::SecureString => Ok(ParameterSource::Encrypted),
        },
    }
}

/// The error when a secret parameter has no ciphertext.
pub fn missing_ciphertext(key: &str) -> (m: String)
    ensures
        m@ == "secure parameter "@ + key@ + " has no ciphertext"@,
{
    concat3("secure parameter ", key, " has no ciphertext")
}

} // verus!

verus! {

/// A referenced parameter that does not exist is an error naming it; a
/// plain one gives its stored value, or an error when it has none; a
/// secret one is decrypted, whatever value column it has.
pub proof fn law_resolution(key: Seq<char>, p: Parameter)
    ensures
        resolution(key, None) == Err::<Option<Seq<char>>, Seq<char>>(
            "parameter "@ + key + " not found"@,
        ),
        p.type_ == ParameterType::String && p.value is Some ==> resolution(key, Some(p)) == Ok::<
            Option<Seq<char>>,
            Seq<char>,
        >(Some(p.value->0@)),
        p.type_ == ParameterType::String && p.value is None ==> resolution(key, Some(p)) is Err,
        p.type_ == ParameterType::SecureString ==> resolution(key, Some(p)) == Ok::<
            Option<Seq<char>>,
            Seq<char>,
        >(None),
{
}

} // verus!
