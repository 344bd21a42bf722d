use vstd::prelude::*;

use crate::error::AccessError;
use crate::records::{
    SecretRow, ServiceAccountRow, ServiceAccountSecretRow, UserVaultRow, VaultRow,
};

verus! {

/// A database statement that an operation asks its driver to run inside the
/// operation's transaction.
#[derive(Debug)]
pub enum Statement {
    /// Scopes row visibility to a human user.
    BindUser { user_id: u32 },
    /// Scopes row visibility to the service account owning a public key.
    BindPublicKey { ecdh_public_key: String },
    ServiceAccountByPublicKey { ecdh_public_key: String },
    ServiceAccountSecrets { service_account_id: u32 },
    VaultSecrets { vault_id: u32 },
    VaultForUser { vault_id: u32, user_id: u32 },
    UserVault { user_id: u32, vault_id: u32 },
    VaultServiceAccounts { vault_id: u32 },
    ServiceAccountById { service_account_id: u32 },
    /// The grant rows of a user on a vault: the ownership check.
    UserVaultGrants { user_id: u32, vault_id: u32 },
    InsertServiceAccountSecret { service_account_id: u32, row: ServiceAccountSecretRow },
    Commit,
}

/// What the database answered to the last statement.
#[derive(Debug)]
pub enum Reply {
    /// The statement ran and returns nothing of interest (a bind, an insert, a commit).
    Executed,
    /// The statement failed; the transaction is aborted.
    DatabaseError,
    ServiceAccount(Option<ServiceAccountRow>),
    ServiceAccountSecrets(Vec<ServiceAccountSecretRow>),
    VaultSecrets(Vec<SecretRow>),
    Vault(Option<VaultRow>),
    UserVault(Option<UserVaultRow>),
    ServiceAccounts(Vec<ServiceAccountRow>),
    /// The number of grant rows found.
    Grants(u64),
}

/// What the driver does next: run a statement and hand back its reply, or end
/// the operation. An error ends it without a commit, so the transaction rolls back.
#[derive(Debug)]
pub enum Step<R> {
    Run(Statement),
    Finish(Result<R, AccessError>),
}

} // verus!
