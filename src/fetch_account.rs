use vstd::prelude::*;

use crate::error::AccessError;
use crate::records::{
    service_account_secret_of, service_account_secrets, GetServiceAccountResponse,
    ServiceAccountSecretRow,
};
use crate::statement::{Reply, Statement, Step};

verus! {

#[derive(Clone, Copy, Debug, PartialEq, Eq, Structural)]
pub enum AccountFetchPhase {
    AwaitBind,
    AwaitAccount,
    AwaitSecrets,
    Finished,
}

/// A service account fetching its own secrets. The public key in the request
/// is the only credential: the transaction is bound to it before anything is
/// read, and the account is looked up by it.
pub struct ServiceAccountFetch {
    pub ecdh_public_key: String,
    /// The account found for the key, once it is found.
    pub service_account_id: u32,
    pub phase: AccountFetchPhase,
}

/// A statement that reads only what belongs to the caller's own key: the bind
/// and the lookup by that key, or the secrets of the account found for it.
pub open spec fn scoped_to_key(s: Statement, key: String, service_account_id: u32) -> bool {
    match s {
        Statement::BindPublicKey { ecdh_public_key } => ecdh_public_key == key,
        Statement::ServiceAccountByPublicKey { ecdh_public_key } => ecdh_public_key == key,
        Statement::ServiceAccountSecrets { service_account_id: id } => id == service_account_id,
        _ => false,
    }
}

impl ServiceAccountFetch {
    /// Starts a fetch for the account owning `ecdh_public_key`. Without a key
    /// there is no credential and nothing is run.
    pub fn start(ecdh_public_key: String) -> (r: (ServiceAccountFetch, Step<GetServiceAccountResponse>))
        ensures
            r.0.ecdh_public_key == ecdh_public_key,
            ecdh_public_key@.len() == 0 ==> r.0.phase == AccountFetchPhase::Finished
                && r.1 == Step::<GetServiceAccountResponse>::Finish(Err(AccessError::PermissionDenied)),
            ecdh_public_key@.len() > 0 ==> r.0.phase == AccountFetchPhase::AwaitBind
                && r.1 == Step::<GetServiceAccountResponse>::Run(
                    Statement::BindPublicKey { ecdh_public_key: ecdh_public_key },
                ),
    {
        if ecdh_public_key.as_str().is_empty() {
            let m = ServiceAccountFetch {
                ecdh_public_key,
                service_account_id: 0,
                phase: AccountFetchPhase::Finished,
            };
            (m, Step::Finish(Err(AccessError::PermissionDenied)))
        } else {
            let bind = Statement::BindPublicKey { ecdh_public_key: ecdh_public_key.clone() };
            let m = ServiceAccountFetch {
                ecdh_public_key,
                service_account_id: 0,
                phase: AccountFetchPhase::AwaitBind,
            };
            (m, Step::Run(bind))
        }
    }

    /// Takes the reply to the last statement and says what comes next. A
    /// missing account is `NotFound`, whether the key is wrong or unknown; any
    /// other unexpected reply, a database error included, is `Internal`.
    pub fn advance(&mut self, reply: Reply) -> (step: Step<GetServiceAccountResponse>)
        ensures
            final(self).ecdh_public_key == old(self).ecdh_public_key,
            step is Run ==> scoped_to_key(step->Run_0, final(self).ecdh_public_key, final(self).service_account_id),
            step is Run ==> !(step->Run_0 is BindPublicKey),
            step is Run <==> final(self).phase != AccountFetchPhase::Finished,
            old(self).phase == AccountFetchPhase::AwaitBind && reply is Executed ==> step
                == Step::<GetServiceAccountResponse>::Run(
                Statement::ServiceAccountByPublicKey { ecdh_public_key: old(self).ecdh_public_key },
            ) && final(self).phase == AccountFetchPhase::AwaitAccount,
            old(self).phase == AccountFetchPhase::AwaitAccount && reply is ServiceAccount
                && reply->ServiceAccount_0 is Some ==> final(self).service_account_id
                == reply->ServiceAccount_0->Some_0.id && step == Step::<GetServiceAccountResponse>::Run(
                Statement::ServiceAccountSecrets { service_account_id: final(self).service_account_id },
            ) && final(self).phase == AccountFetchPhase::AwaitSecrets,
            old(self).phase == AccountFetchPhase::AwaitAccount && reply is ServiceAccount
                && reply->ServiceAccount_0 is None ==> step == Step::<GetServiceAccountResponse>::Finish(
                Err(AccessError::NotFound),
            ),
            old(self).phase == AccountFetchPhase::AwaitSecrets && reply is ServiceAccountSecrets ==> {
                &&& step is Finish
                &&& step->Finish_0 is Ok
                &&& step->Finish_0->Ok_0.service_account_id == old(self).service_account_id
                &&& step->Finish_0->Ok_0.secrets@ == reply->ServiceAccountSecrets_0@.map_values(
                    |r: ServiceAccountSecretRow| service_account_secret_of(r),
                )
            },
            !(old(self).phase == AccountFetchPhase::AwaitBind && reply is Executed)
                && !(old(self).phase == AccountFetchPhase::AwaitAccount && reply is ServiceAccount)
                && !(old(self).phase == AccountFetchPhase::AwaitSecrets && reply is ServiceAccountSecrets)
                ==> step == Step::<GetServiceAccountResponse>::Finish(Err(AccessError::Internal)),
    {
        match (self.phase, reply) {
            (AccountFetchPhase::AwaitBind, Reply::Executed) => {
                self.phase = AccountFetchPhase::AwaitAccount;
                Step::Run(
                    Statement::ServiceAccountByPublicKey { ecdh_public_key: self.ecdh_public_key.clone() },
                )
            },
            (AccountFetchPhase::AwaitAccount, Reply::ServiceAccount(Some(row))) => {
                self.service_account_id = row.id;
                self.phase = AccountFetchPhase::AwaitSecrets;
                Step::Run(Statement::ServiceAccountSecrets { service_account_id: row.id })
            },
            (AccountFetchPhase::AwaitAccount, Reply::ServiceAccount(None)) => {
                self.phase = AccountFetchPhase::Finished;
                Step::Finish(Err(AccessError::NotFound))
            },
            (AccountFetchPhase::AwaitSecrets, Reply::ServiceAccountSecrets(rows)) => {
                self.phase = AccountFetchPhase::Finished;
                let secrets = service_account_secrets(&rows);
                Step::Finish(
                    Ok(GetServiceAccountResponse { service_account_id: self.service_account_id, secrets }),
                )
            },
            _ => {
                self.phase = AccountFetchPhase::Finished;
                Step::Finish(Err(AccessError::Internal))
            },
        }
    }
}

} // verus!
