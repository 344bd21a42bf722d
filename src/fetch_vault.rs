use vstd::prelude::*;

use crate::error::AccessError;
use crate::identity::{authenticate, decimal_u32};
use crate::records::{
    connected_accounts, connected_service_accounts, secret_of, vault_secrets, GetVaultResponse,
    Secret, SecretRow,
};
use crate::statement::{Reply, Statement, Step};

verus! {

#[derive(Clone, Copy, Debug, PartialEq, Eq, Structural)]
pub enum VaultFetchPhase {
    AwaitBind,
    AwaitSecrets,
    AwaitVault,
    AwaitUserVault,
    AwaitServiceAccounts,
    Finished,
}

/// A human user reading the contents of one vault. The transaction is bound
/// to the user before anything is read; the vault is looked up among those the
/// user may see, so a vault without a grant is as absent as one that does not
/// exist.
pub struct VaultFetch {
    pub user_id: u32,
    pub vault_id: u32,
    pub phase: VaultFetchPhase,
    pub secrets: Vec<Secret>,
    pub name: String,
    pub encrypted_vault_key: String,
    pub user_ecdh_public_key: String,
}

impl VaultFetch {
    /// Starts a fetch of `vault_id` for the user that the gateway asserts.
    pub fn start(user_id_header: Option<&[u8]>, vault_id: u32) -> (r: (VaultFetch, Step<GetVaultResponse>))
        ensures
            r.0.vault_id == vault_id,
            user_id_header is None ==> r.0.phase == VaultFetchPhase::Finished
                && r.1 == Step::<GetVaultResponse>::Finish(Err(AccessError::PermissionDenied)),
            user_id_header is Some ==> match decimal_u32(user_id_header->Some_0@) {
                Some(id) => r.0.phase == VaultFetchPhase::AwaitBind && r.0.user_id == id
                    && r.1 == Step::<GetVaultResponse>::Run(Statement::BindUser { user_id: id }),
                None => r.0.phase == VaultFetchPhase::Finished
                    && r.1 == Step::<GetVaultResponse>::Finish(Err(AccessError::Internal)),
            },
    {
        let mut m = VaultFetch {
            user_id: 0,
            vault_id,
            phase: VaultFetchPhase::Finished,
            secrets: Vec::new(),
            name: String::new(),
            encrypted_vault_key: String::new(),
            user_ecdh_public_key: String::new(),
        };
        match authenticate(user_id_header) {
            Ok(user) => {
                m.user_id = user.user_id;
                m.phase = VaultFetchPhase::AwaitBind;
                (m, Step::Run(Statement::BindUser { user_id: user.user_id }))
            },
            Err(e) => (m, Step::Finish(Err(e))),
        }
    }

    /// Takes the reply to the last statement and says what comes next: the
    /// vault's secrets, the vault row, the user's grant, the connected service
    /// accounts, then the response. No visible vault is `NotFound`; a visible
    /// vault without the user's grant row is an inconsistent state, `Internal`,
    /// as is any unexpected reply.
    pub fn advance(&mut self, reply: Reply) -> (step: Step<GetVaultResponse>)
        ensures
            final(self).user_id == old(self).user_id,
            final(self).vault_id == old(self).vault_id,
            step is Run <==> final(self).phase != VaultFetchPhase::Finished,
            old(self).phase == VaultFetchPhase::AwaitBind && reply is Executed ==> final(self).phase
                == VaultFetchPhase::AwaitSecrets && step == Step::<GetVaultResponse>::Run(
                Statement::VaultSecrets { vault_id: old(self).vault_id },
            ),
            old(self).phase == VaultFetchPhase::AwaitSecrets && reply is VaultSecrets ==> final(self).phase
                == VaultFetchPhase::AwaitVault && final(self).secrets@ == reply->VaultSecrets_0@.map_values(
                |r: SecretRow| secret_of(r),
            ) && step == Step::<GetVaultResponse>::Run(
                Statement::VaultForUser { vault_id: old(self).vault_id, user_id: old(self).user_id },
            ),
            old(self).phase == VaultFetchPhase::AwaitVault && reply is Vault ==> match reply->Vault_0 {
                Some(v) => final(self).phase == VaultFetchPhase::AwaitUserVault && final(self).name == v.name
                    && final(self).secrets == old(self).secrets && step == Step::<GetVaultResponse>::Run(
                    Statement::UserVault { user_id: old(self).user_id, vault_id: old(self).vault_id },
                ),
                None => step == Step::<GetVaultResponse>::Finish(Err(AccessError::NotFound)),
            },
            old(self).phase == VaultFetchPhase::AwaitUserVault && reply is UserVault ==> match reply->UserVault_0 {
                Some(g) => final(self).phase == VaultFetchPhase::AwaitServiceAccounts
                    && final(self).encrypted_vault_key == g.encrypted_vault_key
                    && final(self).user_ecdh_public_key == g.ecdh_public_key
                    && final(self).name == old(self).name && final(self).secrets == old(self).secrets
                    && step == Step::<GetVaultResponse>::Run(
                    Statement::VaultServiceAccounts { vault_id: old(self).vault_id },
                ),
                None => step == Step::<GetVaultResponse>::Finish(Err(AccessError::Internal)),
            },
            old(self).phase == VaultFetchPhase::AwaitServiceAccounts && reply is ServiceAccounts ==> {
                &&& step is Finish
                &&& step->Finish_0 is Ok
                &&& step->Finish_0->Ok_0.name == old(self).name
                &&& step->Finish_0->Ok_0.user_vault_encrypted_vault_key == old(self).encrypted_vault_key
                &&& step->Finish_0->Ok_0.user_vault_public_ecdh_key == old(self).user_ecdh_public_key
                &&& step->Finish_0->Ok_0.secrets@ == old(self).secrets@
                &&& step->Finish_0->Ok_0.service_accounts@ == connected_accounts(reply->ServiceAccounts_0@)
            },
            !(old(self).phase == VaultFetchPhase::AwaitBind && reply is Executed)
                && !(old(self).phase == VaultFetchPhase::AwaitSecrets && reply is VaultSecrets)
                && !(old(self).phase == VaultFetchPhase::AwaitVault && reply is Vault)
                && !(old(self).phase == VaultFetchPhase::AwaitUserVault && reply is UserVault)
                && !(old(self).phase == VaultFetchPhase::AwaitServiceAccounts && reply is ServiceAccounts)
                ==> step == Step::<GetVaultResponse>::Finish(Err(AccessError::Internal)),
    {
        match (self.phase, reply) {
            (VaultFetchPhase::AwaitBind, Reply::Executed) => {
                self.phase = VaultFetchPhase::AwaitSecrets;
                Step::Run(Statement::VaultSecrets { vault_id: self.vault_id })
            },
            (VaultFetchPhase::AwaitSecrets, Reply::VaultSecrets(rows)) => {
                self.secrets = vault_secrets(&rows);
                self.phase = VaultFetchPhase::AwaitVault;
                Step::Run(Statement::VaultForUser { vault_id: self.vault_id, user_id: self.user_id })
            },
            (VaultFetchPhase::AwaitVault, Reply::Vault(Some(v))) => {
                self.name = v.name;
                self.phase = VaultFetchPhase::AwaitUserVault;
                Step::Run(Statement::UserVault { user_id: self.user_id, vault_id: self.vault_id })
            },
            (VaultFetchPhase::AwaitVault, Reply::Vault(None)) => {
                self.phase = VaultFetchPhase::Finished;
                Step::Finish(Err(AccessError::NotFound))
            },
            (VaultFetchPhase::AwaitUserVault, Reply::UserVault(Some(g))) => {
                self.encrypted_vault_key = g.encrypted_vault_key;
                self.user_ecdh_public_key = g.ecdh_public_key;
                self.phase = VaultFetchPhase::AwaitServiceAccounts;
                Step::Run(Statement::VaultServiceAccounts { vault_id: self.vault_id })
            },
            (VaultFetchPhase::AwaitServiceAccounts, Reply::ServiceAccounts(rows)) => {
                self.phase = VaultFetchPhase::Finished;
                let mut secrets: Vec<Secret> = Vec::new();
                std::mem::swap(&mut secrets, &mut self.secrets);
                let response = GetVaultResponse {
                    name: self.name.clone(),
                    user_vault_encrypted_vault_key: self.encrypted_vault_key.clone(),
                    user_vault_public_ecdh_key: self.user_ecdh_public_key.clone(),
                    secrets,
                    service_accounts: connected_service_accounts(&rows),
                };
                Step::Finish(Ok(response))
            },
            _ => {
                self.phase = VaultFetchPhase::Finished;
                Step::Finish(Err(AccessError::Internal))
            },
        }
    }
}

} // verus!
