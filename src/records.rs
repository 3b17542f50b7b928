use vstd::prelude::*;

verus! {

/// A parameter with its value, as the parameter store returns it.
#[derive(Debug)]
pub struct Parameter {
    pub name: Option<String>,
    pub value: Option<String>,
}

/// What the parameter store describes of a parameter, without its value.
/// `last_modified_date` is in whole seconds since the epoch.
#[derive(Debug)]
pub struct ParameterMetadata {
    pub name: Option<String>,
    pub version: Option<i64>,
    pub last_modified_user: Option<String>,
    pub last_modified_date: Option<i64>,
}

/// A secret as the secret store lists it: metadata only.
/// Dates are in whole seconds since the epoch.
#[derive(Debug)]
pub struct SecretListEntry {
    pub name: Option<String>,
    pub arn: Option<String>,
    pub rotation_enabled: Option<bool>,
    pub last_changed_date: Option<i64>,
    pub deleted_date: Option<i64>,
}

/// A secret fetched by its ARN, with its value.
#[derive(Debug)]
pub struct SecretValue {
    pub name: Option<String>,
    pub secret_string: Option<String>,
}

/// Returns a copy of an optional string.
pub fn copy_text(o: &Option<String>) -> (r: Option<String>)
    ensures
        r == *o,
{
    match o {
        Some(s) => Some(s.clone()),
        None => None,
    }
}

impl SecretListEntry {
    /// Returns a field-for-field copy.
    pub fn copy(&self) -> (r: Self)
        ensures
            r == *self,
    {
        SecretListEntry {
            name: copy_text(&self.name),
            arn: copy_text(&self.arn),
            rotation_enabled: self.rotation_enabled,
            last_changed_date: self.last_changed_date,
            deleted_date: self.deleted_date,
        }
    }
}

} // verus!
