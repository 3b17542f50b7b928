use vstd::prelude::*;

verus! {

/// Why an action failed. The backend variants carry the backend's own message.
#[derive(Debug)]
pub enum Error {
    ExecError,
    GetSecretValueError(String),
    ListSecretsError(String),
    DescribeParametersError(String),
    GetParametersByPathError(String),
    /// No secret answers to this full name, or it holds no value.
    InvalidKey(String),
    IoError(String),
    ParseError(String),
    /// A record lacks a field that the action needs; carries the record's name.
    MissingField(String),
}

} // verus!
