use vstd::prelude::*;

use crate::create_secrets::{create_step, failed, moved, resume, CreatePhase, SecretsCreation};
use crate::error::AccessError;
use crate::fetch_account::scoped_to_key;
use crate::records::{service_account_secret_of, stored_row, AccountSecrets, SecretPayload, ServiceAccountRow, ServiceAccountSecretRow};
use crate::statement::{Reply, Statement, Step};

verus! {

/// The batch driven through a sequence of replies: its last state and every
/// step it took.
pub open spec fn create_run(m: SecretsCreation, replies: Seq<Reply>) -> (SecretsCreation, Seq<Step<()>>)
    decreases replies.len(),
{
    if replies.len() == 0 {
        (m, Seq::empty())
    } else {
        let (m1, s) = create_step(m, replies[0]);
        let (last, rest) = create_run(m1, replies.drop_first());
        (last, seq![s] + rest)
    }
}

/// The states the batch is in as it takes each reply of a sequence.
pub open spec fn create_states(m: SecretsCreation, replies: Seq<Reply>) -> Seq<SecretsCreation>
    decreases replies.len(),
{
    if replies.len() == 0 {
        Seq::empty()
    } else {
        seq![m] + create_states(create_step(m, replies[0]).0, replies.drop_first())
    }
}

/// A batch that commits passed the ownership check at every entry whose
/// service account is connected to a vault: each such check found a grant row.
pub proof fn lemma_committed_batch_passed_every_check(m: SecretsCreation, replies: Seq<Reply>)
    requires
        create_run(m, replies).0.phase == CreatePhase::Committed,
    ensures
        create_states(m, replies).len() == replies.len(),
        forall|k: int|
            0 <= k < replies.len() && (#[trigger] create_states(m, replies)[k]).phase == CreatePhase::AwaitGrant
                ==> replies[k] is Grants && replies[k]->Grants_0 > 0,
    decreases replies.len(),
{
    if replies.len() > 0 {
        let m1 = create_step(m, replies[0]).0;
        let rest = replies.drop_first();
        if m.phase == CreatePhase::AwaitGrant && !(replies[0] is Grants && replies[0]->Grants_0 > 0) {
            assert(m1.phase == CreatePhase::Failed);
            lemma_failed_batch_stays_failed(m1, rest);
        }
        lemma_committed_batch_passed_every_check(m1, rest);
        assert forall|k: int|
            0 <= k < replies.len() && (#[trigger] create_states(m, replies)[k]).phase == CreatePhase::AwaitGrant
                implies replies[k] is Grants && replies[k]->Grants_0 > 0 by {
            if k > 0 {
                assert(create_states(m, replies)[k] == create_states(m1, rest)[k - 1]);
                assert(replies[k] == rest[k - 1]);
            }
        }
    }
}

/// After its start the batch never binds again: the bind that `start` issues
/// is the only one of the transaction, so every read and write of the batch
/// runs under the context it set.
pub proof fn lemma_batch_binds_once(m: SecretsCreation, replies: Seq<Reply>)
    ensures
        create_run(m, replies).1.len() == replies.len(),
        forall|k: int|
            0 <= k < replies.len() && (#[trigger] create_run(m, replies).1[k]) is Run
                ==> !(create_run(m, replies).1[k]->Run_0 is BindUser),
    decreases replies.len(),
{
    if replies.len() > 0 {
        let (m1, s) = create_step(m, replies[0]);
        lemma_batch_binds_once(m1, replies.drop_first());
        let rest = create_run(m1, replies.drop_first()).1;
        assert forall|k: int|
            0 <= k < replies.len() && (#[trigger] create_run(m, replies).1[k]) is Run
                implies !(create_run(m, replies).1[k]->Run_0 is BindUser) by {
            if k > 0 {
                assert(create_run(m, replies).1[k] == rest[k - 1]);
            }
        }
    }
}

/// A failed batch stays failed: whatever replies follow, it runs no further
/// statement, a commit least of all.
pub proof fn lemma_failed_batch_stays_failed(m: SecretsCreation, replies: Seq<Reply>)
    requires
        m.phase == CreatePhase::Failed,
    ensures
        create_run(m, replies).0.phase == CreatePhase::Failed,
        forall|k: int| 0 <= k < replies.len() ==> !(#[trigger] create_run(m, replies).1[k] is Run),
        create_run(m, replies).1.len() == replies.len(),
    decreases replies.len(),
{
    if replies.len() > 0 {
        lemma_failed_batch_stays_failed(m, replies.drop_first());
        let (m1, s) = create_step(m, replies[0]);
        assert(m1 == m);
        let rest = create_run(m1, replies.drop_first()).1;
        assert forall|k: int| 0 <= k < replies.len() implies !(#[trigger] create_run(m, replies).1[k] is Run) by {
            if k > 0 {
                assert(create_run(m, replies).1[k] == rest[k - 1]);
            }
        }
    }
}

/// A batch entry whose service account is connected to a vault on which the
/// user holds no grant fails the whole batch with `PermissionDenied`, and no
/// later reply brings it to a commit: none of the batch's rows persist, those
/// of earlier entries included.
pub proof fn lemma_denied_entry_aborts_batch(m: SecretsCreation, replies: Seq<Reply>)
    requires
        m.wf(),
        m.phase == CreatePhase::AwaitGrant,
    ensures
        create_step(m, Reply::Grants(0)) == failed(m, AccessError::PermissionDenied),
        create_run(create_step(m, Reply::Grants(0)).0, replies).0.phase == CreatePhase::Failed,
        forall|k: int|
            0 <= k < replies.len() ==> !(#[trigger] create_run(create_step(m, Reply::Grants(0)).0, replies).1[k] is Run),
{
    lemma_failed_batch_stays_failed(create_step(m, Reply::Grants(0)).0, replies);
}

/// A service account that is not connected to a vault is writable by any
/// authenticated user: no ownership check is asked for, and the batch goes on
/// to the entry's payloads.
pub proof fn lemma_unconnected_account_is_writable(m: SecretsCreation, row: ServiceAccountRow)
    requires
        m.wf(),
        m.phase == CreatePhase::AwaitAccount,
        row.vault_id is None,
    ensures
        create_step(m, Reply::ServiceAccount(Some(row))) == moved(m, resume(m.entries@, m.entry as int, 0)),
        create_step(m, Reply::ServiceAccount(Some(row))).0.phase != CreatePhase::Failed,
        create_step(m, Reply::ServiceAccount(Some(row))).1 is Run,
        !(create_step(m, Reply::ServiceAccount(Some(row))).1->Run_0 is UserVaultGrants),
{
}

/// What a write stores for a batch entry comes back from a service-account
/// fetch field for field: encrypted name, blind index and encrypted value as
/// the client sent them, under the entry's public key.
pub proof fn lemma_written_secrets_read_back(entry: AccountSecrets)
    ensures
        ({
            let out = entry.secrets@.map_values(|p: SecretPayload| stored_row(entry, p)).map_values(
                |r: ServiceAccountSecretRow| service_account_secret_of(r),
            );
            &&& out.len() == entry.secrets@.len()
            &&& forall|k: int|
                0 <= k < out.len() ==> {
                    &&& (#[trigger] out[k]).encrypted_name == entry.secrets@[k].encrypted_name
                    &&& out[k].name_blind_index == entry.secrets@[k].name_blind_index
                    &&& out[k].encrypted_secret_value == entry.secrets@[k].encrypted_secret_value
                    &&& out[k].ecdh_public_key == entry.public_ecdh_key
                }
        }),
{
}

/// Fetches for two different public keys never share a statement that binds
/// or looks up a key: each reads under its own key only.
pub proof fn lemma_fetches_for_distinct_keys_are_isolated(
    s: Statement,
    key: String,
    service_account_id: u32,
    other_key: String,
    other_id: u32,
)
    requires
        key@ != other_key@,
        scoped_to_key(s, key, service_account_id),
        !(s is ServiceAccountSecrets),
    ensures
        !scoped_to_key(s, other_key, other_id),
{
}

} // verus!
