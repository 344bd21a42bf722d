//! Access and authorization engine of an end-to-end encrypted secret store.
//!
//! The server only moves ciphertext, public keys and blind indexes. What it
//! decides is who is calling, which row-security context a transaction is
//! bound to, and whether a caller may read or write the rows it names. Each
//! operation is a transaction driven as a state machine: the machine names the
//! next database statement, the caller runs it and hands back the reply.

pub mod error;
pub mod identity;
pub mod records;
pub mod statement;
pub mod fetch_account;
pub mod fetch_vault;
pub mod create_secrets;
pub mod laws;

pub use create_secrets::{ownership_guard, CreatePhase, SecretsCreation};
pub use error::AccessError;
pub use fetch_account::{AccountFetchPhase, ServiceAccountFetch};
pub use fetch_vault::{VaultFetch, VaultFetchPhase};
pub use identity::{authenticate, parse_user_id, Authentication, X_USER_ID};
pub use records::{
    AccountSecrets, GetServiceAccountResponse, GetVaultResponse, Secret, SecretPayload, SecretRow,
    ServiceAccount, ServiceAccountRow, ServiceAccountSecret, ServiceAccountSecretRow, UserVaultRow,
    VaultRow,
};
pub use statement::{Reply, Statement, Step};
