//! Secrets provider port (API keys, tokens). Secrets are never hardcoded.

use vstd::prelude::*;

use crate::domain::error::OrchestratorError;

verus! {

/// Port for retrieving secrets, implemented by the users of the library
/// (environment variables, a vault, a keyring, ...).
pub trait SecretsProvider {
    /// Retrieve a secret by key; `SecretsError` if it is missing or cannot
    /// be retrieved.
    fn get_secret(&self, key: &str) -> (r: Result<String, OrchestratorError>)
        ensures
            r is Err ==> r matches Err(OrchestratorError::SecretsError(_)),
    ;

    /// Check whether a secret exists without returning its value: the
    /// answer is whether retrieving it succeeds.
    fn has_secret(&self, key: &str) -> (b: bool)
        ensures
            exists|r: Result<String, OrchestratorError>|
                call_ensures(Self::get_secret, (self, key), r) && (b <==> r is Ok),
    {
        self.get_secret(key).is_ok()
    }
}

} // verus!
