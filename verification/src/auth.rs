//! What the exporter asks of the credentials it is given.

use vstd::prelude::*;
use vstd::string::*;

verus! {

/// Why credentials cannot be used.
#[derive(Clone, Copy, Debug, PartialEq, Eq, Structural)]
pub enum CredentialsError {
    /// The credentials name no project.
    MissingProjectId,
}

impl CredentialsError {
    /// The error in words.
    pub fn message(&self) -> (text: String)
        ensures
            text@ == "project_id is missing"@,
    {
        String::from_str("project_id is missing")
    }
}

/// The project that credentials name. Credentials that name none are
/// refused.
pub fn require_project_id(project_id: Option<String>) -> (result: Result<String, CredentialsError>)
    ensures
        match project_id {
            Some(id) => result == Ok::<String, CredentialsError>(id),
            None => result == Err::<String, CredentialsError>(CredentialsError::MissingProjectId),
        },
{
    match project_id {
        Some(id) => Ok(id),
        None => Err(CredentialsError::MissingProjectId),
    }
}

} // verus!
