use vstd::prelude::*;

verus! {

/// One secret as a client encrypted it: the server never reads these fields.
#[derive(Clone, Debug)]
pub struct SecretPayload {
    pub encrypted_name: String,
    pub name_blind_index: String,
    pub encrypted_secret_value: String,
}

/// A batch entry of a write: secrets for one service account, encrypted to
/// `public_ecdh_key`.
#[derive(Clone, Debug)]
pub struct AccountSecrets {
    pub service_account_id: u32,
    pub public_ecdh_key: String,
    pub secrets: Vec<SecretPayload>,
}

/// A service-account secret row as the store returns it.
#[derive(Clone, Debug)]
pub struct ServiceAccountSecretRow {
    pub name: String,
    pub name_blind_index: String,
    pub secret: String,
    pub ecdh_public_key: String,
}

/// A vault-scoped secret row as the store returns it.
#[derive(Clone, Debug)]
pub struct SecretRow {
    pub name: String,
    pub name_blind_index: String,
    pub secret: String,
    pub environment_id: u32,
}

/// A service account row: the vault and environment it is connected to, if any.
#[derive(Clone, Debug)]
pub struct ServiceAccountRow {
    pub id: u32,
    pub vault_id: Option<u32>,
    pub environment_id: Option<u32>,
    pub ecdh_public_key: String,
}

/// The vault row visible to the bound user.
#[derive(Clone, Debug)]
pub struct VaultRow {
    pub name: String,
}

/// A user's grant on a vault: the vault key wrapped to the user's public key.
#[derive(Clone, Debug)]
pub struct UserVaultRow {
    pub encrypted_vault_key: String,
    pub ecdh_public_key: String,
}

/// A service-account secret as sent to the caller.
#[derive(Clone, Debug)]
pub struct ServiceAccountSecret {
    pub encrypted_name: String,
    pub name_blind_index: String,
    pub encrypted_secret_value: String,
    pub ecdh_public_key: String,
}

/// A vault secret as sent to the caller.
#[derive(Clone, Debug)]
pub struct Secret {
    pub encrypted_name: String,
    pub name_blind_index: String,
    pub encrypted_secret_value: String,
    pub environment_id: u32,
}

/// A service account connected to a vault, as sent to the caller.
#[derive(Clone, Debug)]
pub struct ServiceAccount {
    pub service_account_id: u32,
    pub environment_id: u32,
    pub public_ecdh_key: String,
}

#[derive(Clone, Debug)]
pub struct GetServiceAccountResponse {
    pub service_account_id: u32,
    pub secrets: Vec<ServiceAccountSecret>,
}

#[derive(Clone, Debug)]
pub struct GetVaultResponse {
    pub name: String,
    pub user_vault_encrypted_vault_key: String,
    pub user_vault_public_ecdh_key: String,
    pub secrets: Vec<Secret>,
    pub service_accounts: Vec<ServiceAccount>,
}

/// A row passed to the caller field for field.
pub open spec fn service_account_secret_of(r: ServiceAccountSecretRow) -> ServiceAccountSecret {
    ServiceAccountSecret {
        encrypted_name: r.name,
        name_blind_index: r.name_blind_index,
        encrypted_secret_value: r.secret,
        ecdh_public_key: r.ecdh_public_key,
    }
}

pub open spec fn secret_of(r: SecretRow) -> Secret {
    Secret {
        encrypted_name: r.name,
        name_blind_index: r.name_blind_index,
        encrypted_secret_value: r.secret,
        environment_id: r.environment_id,
    }
}

/// The connected service accounts among `rows`, in order: a row without an
/// environment is dropped.
pub open spec fn connected_accounts(rows: Seq<ServiceAccountRow>) -> Seq<ServiceAccount>
    decreases rows.len(),
{
    if rows.len() == 0 {
        Seq::empty()
    } else {
        let r = rows.last();
        let rest = connected_accounts(rows.drop_last());
        match r.environment_id {
            Some(env) => rest.push(
                ServiceAccount { service_account_id: r.id, environment_id: env, public_ecdh_key: r.ecdh_public_key },
            ),
            None => rest,
        }
    }
}

/// The row a write stores for one payload of a batch entry.
pub open spec fn stored_row(entry: AccountSecrets, p: SecretPayload) -> ServiceAccountSecretRow {
    ServiceAccountSecretRow {
        name: p.encrypted_name,
        name_blind_index: p.name_blind_index,
        secret: p.encrypted_secret_value,
        ecdh_public_key: entry.public_ecdh_key,
    }
}

/// Passes service-account secret rows to the caller unchanged, in order.
pub fn service_account_secrets(rows: &Vec<ServiceAccountSecretRow>) -> (out: Vec<ServiceAccountSecret>)
    ensures
        out@ == rows@.map_values(|r: ServiceAccountSecretRow| service_account_secret_of(r)),
{
    let mut out: Vec<ServiceAccountSecret> = Vec::new();
    let mut i: usize = 0;
    while i < rows.len()
        invariant
            i <= rows.len(),
            out@ == rows@.subrange(0, i as int).map_values(|r: ServiceAccountSecretRow| service_account_secret_of(r)),
        decreases rows.len() - i,
    {
        let r = &rows[i];
        out.push(ServiceAccountSecret {
            encrypted_name: r.name.clone(),
            name_blind_index: r.name_blind_index.clone(),
            encrypted_secret_value: r.secret.clone(),
            ecdh_public_key: r.ecdh_public_key.clone(),
        });
        i = i + 1;
        assert(rows@.subrange(0, i as int) =~= rows@.subrange(0, i - 1).push(rows@[i - 1]));
    }
    assert(rows@.subrange(0, rows.len() as int) =~= rows@);
    out
}

/// Passes vault secret rows to the caller unchanged, in order.
pub fn vault_secrets(rows: &Vec<SecretRow>) -> (out: Vec<Secret>)
    ensures
        out@ == rows@.map_values(|r: SecretRow| secret_of(r)),
{
    let mut out: Vec<Secret> = Vec::new();
    let mut i: usize = 0;
    while i < rows.len()
        invariant
            i <= rows.len(),
            out@ == rows@.subrange(0, i as int).map_values(|r: SecretRow| secret_of(r)),
        decreases rows.len() - i,
    {
        let r = &rows[i];
        out.push(Secret {
            encrypted_name: r.name.clone(),
            name_blind_index: r.name_blind_index.clone(),
            encrypted_secret_value: r.secret.clone(),
            environment_id: r.environment_id,
        });
        i = i + 1;
        assert(rows@.subrange(0, i as int) =~= rows@.subrange(0, i - 1).push(rows@[i - 1]));
    }
    assert(rows@.subrange(0, rows.len() as int) =~= rows@);
    out
}

/// Keeps the service accounts that have an environment, in order.
pub fn connected_service_accounts(rows: &Vec<ServiceAccountRow>) -> (out: Vec<ServiceAccount>)
    ensures
        out@ == connected_accounts(rows@),
{
    let mut out: Vec<ServiceAccount> = Vec::new();
    let mut i: usize = 0;
    while i < rows.len()
        invariant
            i <= rows.len(),
            out@ == connected_accounts(rows@.subrange(0, i as int)),
        decreases rows.len() - i,
    {
        let r = &rows[i];
        proof {
            assert(rows@.subrange(0, i + 1).drop_last() =~= rows@.subrange(0, i as int));
        }
        match r.environment_id {
            Some(env) => {
                out.push(
                    ServiceAccount {
                        service_account_id: r.id,
                        environment_id: env,
                        public_ecdh_key: r.ecdh_public_key.clone(),
                    },
                );
            },
            None => {},
        }
        i = i + 1;
    }
    assert(rows@.subrange(0, rows.len() as int) =~= rows@);
    out
}

} // verus!
