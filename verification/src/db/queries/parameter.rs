//! Rows of the `parameters` table.

use vstd::prelude::*;

verus! {

/// A plain parameter, or one stored encrypted.
#[derive(Debug, Clone, Copy, PartialEq, Eq, Structural)]
pub enum ParameterType {
    String,
    SecureString,
}

/// A parameter; `value` is only ever set for plain parameters.
#[derive(Debug)]
pub struct Parameter {
    pub key: String,
    pub type_: ParameterType,
    pub value: Option<String>,
    pub created_at: i64,
    pub updated_at: i64,
}

} // verus!
