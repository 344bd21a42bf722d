use vstd::prelude::*;

use crate::error::AccessError;
use crate::identity::{authenticate, decimal_u32};
use crate::records::{stored_row, AccountSecrets, ServiceAccountSecretRow};
use crate::statement::{Reply, Statement, Step};

verus! {

#[derive(Clone, Copy, Debug, PartialEq, Eq, Structural)]
pub enum CreatePhase {
    AwaitBind,
    /// The service account of the current entry was asked for.
    AwaitAccount,
    /// The ownership check on the current entry's vault was asked for.
    AwaitGrant,
    /// The current payload of the current entry is being written.
    AwaitInsert,
    AwaitCommit,
    Committed,
    /// Ended without a commit: nothing of the batch persists.
    Failed,
}

/// A human user writing a batch of secrets for service accounts, all in one
/// transaction. An account already connected to a vault is written only if
/// the user holds a grant on that vault; an unconnected one by any
/// authenticated user. Any failure ends the batch without a commit.
pub struct SecretsCreation {
    pub user_id: u32,
    pub entries: Vec<AccountSecrets>,
    /// The entry being worked on.
    pub entry: usize,
    /// The payload of that entry being written.
    pub secret: usize,
    pub phase: CreatePhase,
}

/// The statement that writes payload `j` of entry `i`.
pub open spec fn insert_of(entries: Seq<AccountSecrets>, i: int, j: int) -> Statement {
    Statement::InsertServiceAccountSecret {
        service_account_id: entries[i].service_account_id,
        row: stored_row(entries[i], entries[i].secrets@[j]),
    }
}

/// Where the batch goes when it turns to entry `i`: the entry's service
/// account is looked up, or, past the last entry, the transaction commits.
pub open spec fn open_entry(entries: Seq<AccountSecrets>, i: int) -> (CreatePhase, int, int, Statement) {
    if i < entries.len() {
        (
            CreatePhase::AwaitAccount,
            i,
            0,
            Statement::ServiceAccountById { service_account_id: entries[i].service_account_id },
        )
    } else {
        (CreatePhase::AwaitCommit, i, 0, Statement::Commit)
    }
}

/// Where the batch goes once entry `i` may be written and its payloads
/// before `j` are.
pub open spec fn resume(entries: Seq<AccountSecrets>, i: int, j: int) -> (CreatePhase, int, int, Statement) {
    if j < entries[i].secrets@.len() {
        (CreatePhase::AwaitInsert, i, j, insert_of(entries, i, j))
    } else {
        open_entry(entries, i + 1)
    }
}

pub open spec fn moved(m: SecretsCreation, t: (CreatePhase, int, int, Statement)) -> (SecretsCreation, Step<()>) {
    (
        SecretsCreation { user_id: m.user_id, entries: m.entries, entry: t.1 as usize, secret: t.2 as usize, phase: t.0 },
        Step::Run(t.3),
    )
}

pub open spec fn with_phase(m: SecretsCreation, phase: CreatePhase) -> SecretsCreation {
    SecretsCreation { user_id: m.user_id, entries: m.entries, entry: m.entry, secret: m.secret, phase }
}

pub open spec fn failed(m: SecretsCreation, e: AccessError) -> (SecretsCreation, Step<()>) {
    (with_phase(m, CreatePhase::Failed), Step::Finish(Err(e)))
}

/// One move of the batch on the reply to its last statement.
pub open spec fn create_step(m: SecretsCreation, reply: Reply) -> (SecretsCreation, Step<()>) {
    match m.phase {
        CreatePhase::AwaitBind => match reply {
            Reply::Executed => moved(m, open_entry(m.entries@, 0)),
            _ => failed(m, AccessError::Internal),
        },
        CreatePhase::AwaitAccount => match reply {
            Reply::ServiceAccount(Some(row)) => match row.vault_id {
                Some(v) => (
                    with_phase(m, CreatePhase::AwaitGrant),
                    Step::Run(Statement::UserVaultGrants { user_id: m.user_id, vault_id: v }),
                ),
                None => moved(m, resume(m.entries@, m.entry as int, 0)),
            },
            Reply::ServiceAccount(None) => failed(m, AccessError::NotFound),
            _ => failed(m, AccessError::Internal),
        },
        CreatePhase::AwaitGrant => match reply {
            Reply::Grants(n) => if n == 0 {
                failed(m, AccessError::PermissionDenied)
            } else {
                moved(m, resume(m.entries@, m.entry as int, 0))
            },
            _ => failed(m, AccessError::Internal),
        },
        CreatePhase::AwaitInsert => match reply {
            Reply::Executed => moved(m, resume(m.entries@, m.entry as int, m.secret + 1)),
            _ => failed(m, AccessError::Internal),
        },
        CreatePhase::AwaitCommit => match reply {
            Reply::Executed => (with_phase(m, CreatePhase::Committed), Step::Finish(Ok(()))),
            _ => failed(m, AccessError::Internal),
        },
        CreatePhase::Committed => (m, Step::Finish(Err(AccessError::Internal))),
        CreatePhase::Failed => (m, Step::Finish(Err(AccessError::Internal))),
    }
}

/// The ownership check on a write to a connected service account: it passes
/// only if the user holds a grant row on the account's vault. It stands beside
/// row security because the write names the account, not the vault.
pub fn ownership_guard(grant_rows: u64) -> (r: Result<(), AccessError>)
    ensures
        grant_rows > 0 ==> r is Ok,
        grant_rows == 0 ==> r == Err::<(), AccessError>(AccessError::PermissionDenied),
{
    if grant_rows == 0 {
        Err(AccessError::PermissionDenied)
    } else {
        Ok(())
    }
}

impl SecretsCreation {
    /// The cursor points at an entry, and at a payload, that exist.
    pub open spec fn wf(self) -> bool {
        match self.phase {
            CreatePhase::AwaitAccount => self.entry < self.entries.len(),
            CreatePhase::AwaitGrant => self.entry < self.entries.len(),
            CreatePhase::AwaitInsert => self.entry < self.entries.len() && self.secret
                < self.entries@[self.entry as int].secrets.len(),
            _ => true,
        }
    }

    /// Starts a batch write for the user that the gateway asserts.
    pub fn start(user_id_header: Option<&[u8]>, account_secrets: Vec<AccountSecrets>) -> (r: (
        SecretsCreation,
        Step<()>,
    ))
        ensures
            r.0.wf(),
            r.0.entries == account_secrets,
            user_id_header is None ==> r.0.phase == CreatePhase::Failed && r.1 == Step::<()>::Finish(
                Err(AccessError::PermissionDenied),
            ),
            user_id_header is Some ==> match decimal_u32(user_id_header->Some_0@) {
                Some(id) => r.0.phase == CreatePhase::AwaitBind && r.0.user_id == id && r.1 == Step::<()>::Run(
                    Statement::BindUser { user_id: id },
                ),
                None => r.0.phase == CreatePhase::Failed && r.1 == Step::<()>::Finish(Err(AccessError::Internal)),
            },
    {
        let mut m = SecretsCreation {
            user_id: 0,
            entries: account_secrets,
            entry: 0,
            secret: 0,
            phase: CreatePhase::Failed,
        };
        match authenticate(user_id_header) {
            Ok(user) => {
                m.user_id = user.user_id;
                m.phase = CreatePhase::AwaitBind;
                (m, Step::Run(Statement::BindUser { user_id: user.user_id }))
            },
            Err(e) => (m, Step::Finish(Err(e))),
        }
    }

    fn open_entry(&mut self, i: usize) -> (step: Step<()>)
        requires
            i <= old(self).entries.len(),
        ensures
            (*final(self), step) == moved(*old(self), open_entry(old(self).entries@, i as int)),
            final(self).wf(),
    {
        self.entry = i;
        self.secret = 0;
        if i < self.entries.len() {
            self.phase = CreatePhase::AwaitAccount;
            Step::Run(Statement::ServiceAccountById { service_account_id: self.entries[i].service_account_id })
        } else {
            self.phase = CreatePhase::AwaitCommit;
            Step::Run(Statement::Commit)
        }
    }

    fn resume(&mut self, i: usize, j: usize) -> (step: Step<()>)
        requires
            i < old(self).entries.len(),
            j <= old(self).entries@[i as int].secrets.len(),
        ensures
            (*final(self), step) == moved(*old(self), resume(old(self).entries@, i as int, j as int)),
            final(self).wf(),
    {
        let e = &self.entries[i];
        if j < e.secrets.len() {
            let p = &e.secrets[j];
            let row = ServiceAccountSecretRow {
                name: p.encrypted_name.clone(),
                name_blind_index: p.name_blind_index.clone(),
                secret: p.encrypted_secret_value.clone(),
                ecdh_public_key: e.public_ecdh_key.clone(),
            };
            let id = e.service_account_id;
            self.entry = i;
            self.secret = j;
            self.phase = CreatePhase::AwaitInsert;
            Step::Run(Statement::InsertServiceAccountSecret { service_account_id: id, row })
        } else {
            self.open_entry(i + 1)
        }
    }

    fn fail(&mut self, e: AccessError) -> (step: Step<()>)
        ensures
            (*final(self), step) == failed(*old(self), e),
    {
        self.phase = CreatePhase::Failed;
        Step::Finish(Err(e))
    }

    /// Takes the reply to the last statement and says what comes next, as
    /// `create_step` states it.
    pub fn advance(&mut self, reply: Reply) -> (step: Step<()>)
        requires
            old(self).wf(),
        ensures
            (*final(self), step) == create_step(*old(self), reply),
            final(self).wf(),
    {
        match (self.phase, reply) {
            (CreatePhase::AwaitBind, Reply::Executed) => self.open_entry(0),
            (CreatePhase::AwaitAccount, Reply::ServiceAccount(Some(row))) => match row.vault_id {
                Some(v) => {
                    self.phase = CreatePhase::AwaitGrant;
                    Step::Run(Statement::UserVaultGrants { user_id: self.user_id, vault_id: v })
                },
                None => self.resume(self.entry, 0),
            },
            (CreatePhase::AwaitAccount, Reply::ServiceAccount(None)) => self.fail(AccessError::NotFound),
            (CreatePhase::AwaitGrant, Reply::Grants(n)) => match ownership_guard(n) {
                Ok(()) => self.resume(self.entry, 0),
                Err(e) => self.fail(e),
            },
            (CreatePhase::AwaitInsert, Reply::Executed) => self.resume(self.entry, self.secret + 1),
            (CreatePhase::AwaitCommit, Reply::Executed) => {
                self.phase = CreatePhase::Committed;
                Step::Finish(Ok(()))
            },
            (CreatePhase::Committed, _) => Step::Finish(Err(AccessError::Internal)),
            (CreatePhase::Failed, _) => Step::Finish(Err(AccessError::Internal)),
            _ => self.fail(AccessError::Internal),
        }
    }
}

} // verus!
