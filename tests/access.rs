use cloak_access::{
    authenticate, parse_user_id, AccessError, AccountSecrets, GetServiceAccountResponse,
    GetVaultResponse, Reply, SecretPayload, SecretRow, SecretsCreation, ServiceAccountFetch,
    ServiceAccountRow, ServiceAccountSecretRow, Statement, Step, UserVaultRow, VaultFetch,
    VaultRow,
};

// An in-memory store with the row security of the real one: a transaction
// sees the rows of the identity it is bound to, and writes persist on commit.
struct Store {
    vaults: Vec<(u32, String)>,
    grants: Vec<(u32, u32, UserVaultRow)>,
    accounts: Vec<ServiceAccountRow>,
    account_secrets: Vec<(u32, ServiceAccountSecretRow)>,
    vault_secrets: Vec<(u32, SecretRow)>,
    fail_inserts: bool,
}

fn store() -> Store {
    Store {
        vaults: Vec::new(),
        grants: Vec::new(),
        accounts: Vec::new(),
        account_secrets: Vec::new(),
        vault_secrets: Vec::new(),
        fail_inserts: false,
    }
}

fn account(id: u32, vault_id: Option<u32>, environment_id: Option<u32>, key: &str) -> ServiceAccountRow {
    ServiceAccountRow { id, vault_id, environment_id, ecdh_public_key: key.to_string() }
}

fn grant(user: u32, vault: u32) -> (u32, u32, UserVaultRow) {
    (
        user,
        vault,
        UserVaultRow {
            encrypted_vault_key: format!("wrapped-{}-{}", user, vault),
            ecdh_public_key: format!("user-key-{}", user),
        },
    )
}

fn payload(name: &str, index: &str, value: &str) -> SecretPayload {
    SecretPayload {
        encrypted_name: name.to_string(),
        name_blind_index: index.to_string(),
        encrypted_secret_value: value.to_string(),
    }
}

fn has_grant(s: &Store, user: u32, vault: u32) -> bool {
    s.grants.iter().any(|g| g.0 == user && g.1 == vault)
}

fn answer(s: &Store, bound: &mut Option<(Option<u32>, Option<String>)>, pending: &mut Vec<(u32, ServiceAccountSecretRow)>, st: Statement) -> Reply {
    match st {
        Statement::BindUser { user_id } => {
            assert!(bound.is_none());
            *bound = Some((Some(user_id), None));
            Reply::Executed
        }
        Statement::BindPublicKey { ecdh_public_key } => {
            assert!(bound.is_none());
            *bound = Some((None, Some(ecdh_public_key)));
            Reply::Executed
        }
        other => {
            let (user, key) = bound.clone().expect("a statement ran before the bind");
            match other {
                Statement::ServiceAccountByPublicKey { ecdh_public_key } => {
                    assert_eq!(Some(ecdh_public_key.clone()), key);
                    Reply::ServiceAccount(s.accounts.iter().find(|a| a.ecdh_public_key == ecdh_public_key).cloned())
                }
                Statement::ServiceAccountSecrets { service_account_id } => Reply::ServiceAccountSecrets(
                    s.account_secrets
                        .iter()
                        .filter(|r| r.0 == service_account_id && Some(r.1.ecdh_public_key.clone()) == key)
                        .map(|r| r.1.clone())
                        .collect(),
                ),
                Statement::VaultSecrets { vault_id } => {
                    let u = user.unwrap();
                    Reply::VaultSecrets(
                        s.vault_secrets
                            .iter()
                            .filter(|r| r.0 == vault_id && has_grant(s, u, vault_id))
                            .map(|r| r.1.clone())
                            .collect(),
                    )
                }
                Statement::VaultForUser { vault_id, user_id } => Reply::Vault(
                    s.vaults
                        .iter()
                        .find(|v| v.0 == vault_id && has_grant(s, user_id, vault_id) && user == Some(user_id))
                        .map(|v| VaultRow { name: v.1.clone() }),
                ),
                Statement::UserVault { user_id, vault_id } => Reply::UserVault(
                    s.grants.iter().find(|g| g.0 == user_id && g.1 == vault_id).map(|g| g.2.clone()),
                ),
                Statement::VaultServiceAccounts { vault_id } => Reply::ServiceAccounts(
                    s.accounts.iter().filter(|a| a.vault_id == Some(vault_id)).cloned().collect(),
                ),
                Statement::ServiceAccountById { service_account_id } => {
                    Reply::ServiceAccount(s.accounts.iter().find(|a| a.id == service_account_id).cloned())
                }
                Statement::UserVaultGrants { user_id, vault_id } => {
                    Reply::Grants(if has_grant(s, user_id, vault_id) { 1 } else { 0 })
                }
                Statement::InsertServiceAccountSecret { service_account_id, row } => {
                    if s.fail_inserts {
                        Reply::DatabaseError
                    } else {
                        pending.push((service_account_id, row));
                        Reply::Executed
                    }
                }
                Statement::Commit => Reply::Executed,
                _ => unreachable!(),
            }
        }
    }
}

fn create(s: &mut Store, header: Option<&str>, entries: Vec<AccountSecrets>) -> Result<(), AccessError> {
    let (mut m, mut step) = SecretsCreation::start(header.map(|h| h.as_bytes()), entries);
    let mut bound = None;
    let mut pending = Vec::new();
    loop {
        match step {
            Step::Finish(r) => return r,
            Step::Run(Statement::Commit) => {
                s.account_secrets.append(&mut pending);
                step = m.advance(Reply::Executed);
            }
            Step::Run(st) => {
                let reply = answer(s, &mut bound, &mut pending, st);
                step = m.advance(reply);
            }
        }
    }
}

fn fetch_vault(s: &Store, header: Option<&str>, vault_id: u32) -> Result<GetVaultResponse, AccessError> {
    let (mut m, mut step) = VaultFetch::start(header.map(|h| h.as_bytes()), vault_id);
    let mut bound = None;
    let mut pending = Vec::new();
    loop {
        match step {
            Step::Finish(r) => return r,
            Step::Run(st) => {
                let reply = answer(s, &mut bound, &mut pending, st);
                step = m.advance(reply);
            }
        }
    }
}

fn fetch_account(s: &Store, key: &str) -> Result<GetServiceAccountResponse, AccessError> {
    let (mut m, mut step) = ServiceAccountFetch::start(key.to_string());
    let mut bound = None;
    let mut pending = Vec::new();
    loop {
        match step {
            Step::Finish(r) => return r,
            Step::Run(st) => {
                let reply = answer(s, &mut bound, &mut pending, st);
                step = m.advance(reply);
            }
        }
    }
}

fn secrets_of(s: &Store, id: u32) -> usize {
    s.account_secrets.iter().filter(|r| r.0 == id).count()
}

fn entry(id: u32, key: &str, secrets: Vec<SecretPayload>) -> AccountSecrets {
    AccountSecrets { service_account_id: id, public_ecdh_key: key.to_string(), secrets }
}

#[test]
fn parses_decimal_user_ids() {
    assert_eq!(parse_user_id(b"42"), Some(42));
    assert_eq!(parse_user_id(b"+7"), Some(7));
    assert_eq!(parse_user_id(b"007"), Some(7));
    assert_eq!(parse_user_id(b"0"), Some(0));
    assert_eq!(parse_user_id(b"4294967295"), Some(4294967295));
}

#[test]
fn rejects_malformed_user_ids() {
    assert_eq!(parse_user_id(b""), None);
    assert_eq!(parse_user_id(b"+"), None);
    assert_eq!(parse_user_id(b"-1"), None);
    assert_eq!(parse_user_id(b"12a"), None);
    assert_eq!(parse_user_id(b" 1"), None);
    assert_eq!(parse_user_id(b"4294967296"), None);
    assert_eq!(parse_user_id(b"99999999999999999999"), None);
}

#[test]
fn authenticate_distinguishes_absent_and_malformed_assertions() {
    assert_eq!(authenticate(None), Err(AccessError::PermissionDenied));
    assert_eq!(authenticate(Some(b"abc".as_slice())), Err(AccessError::Internal));
    assert_eq!(authenticate(Some(b"5".as_slice())).map(|a| a.user_id), Ok(5));
}

#[test]
fn no_credential_denies_every_operation() {
    let mut s = store();
    s.accounts.push(account(1, None, None, "sa-key"));
    assert_eq!(fetch_account(&s, "").err(), Some(AccessError::PermissionDenied));
    assert_eq!(fetch_vault(&s, None, 1).err(), Some(AccessError::PermissionDenied));
    let r = create(&mut s, None, vec![entry(1, "sa-key", vec![payload("n", "i", "v")])]);
    assert_eq!(r, Err(AccessError::PermissionDenied));
    assert_eq!(secrets_of(&s, 1), 0);
}

#[test]
fn vault_without_grant_is_not_found() {
    let mut s = store();
    s.vaults.push((1, "prod".to_string()));
    s.grants.push(grant(10, 1));
    s.vault_secrets.push((1, SecretRow { name: "n".into(), name_blind_index: "i".into(), secret: "v".into(), environment_id: 3 }));
    assert_eq!(fetch_vault(&s, Some("11"), 1).err(), Some(AccessError::NotFound));
    assert_eq!(fetch_vault(&s, Some("10"), 2).err(), Some(AccessError::NotFound));
    assert!(fetch_vault(&s, Some("10"), 1).is_ok());
}

#[test]
fn vault_contents_for_granted_user() {
    let mut s = store();
    s.vaults.push((1, "prod".to_string()));
    s.grants.push(grant(10, 1));
    s.vault_secrets.push((1, SecretRow { name: "n1".into(), name_blind_index: "i1".into(), secret: "v1".into(), environment_id: 3 }));
    s.vault_secrets.push((1, SecretRow { name: "n2".into(), name_blind_index: "i2".into(), secret: "v2".into(), environment_id: 4 }));
    s.accounts.push(account(5, Some(1), Some(3), "k5"));
    s.accounts.push(account(6, Some(1), None, "k6"));
    s.accounts.push(account(7, Some(1), Some(4), "k7"));
    let r = fetch_vault(&s, Some("10"), 1).unwrap();
    assert_eq!(r.name, "prod");
    assert_eq!(r.user_vault_encrypted_vault_key, "wrapped-10-1");
    assert_eq!(r.user_vault_public_ecdh_key, "user-key-10");
    assert_eq!(r.secrets.len(), 2);
    assert_eq!(r.secrets[0].encrypted_name, "n1");
    assert_eq!(r.secrets[1].encrypted_secret_value, "v2");
    assert_eq!(r.secrets[1].environment_id, 4);
    let ids: Vec<(u32, u32, String)> = r
        .service_accounts
        .iter()
        .map(|a| (a.service_account_id, a.environment_id, a.public_ecdh_key.clone()))
        .collect();
    assert_eq!(ids, vec![(5, 3, "k5".to_string()), (7, 4, "k7".to_string())]);
}

#[test]
fn missing_grant_row_after_vault_is_internal() {
    let mut m = VaultFetch::start(Some(b"10".as_slice()), 1).0;
    assert!(matches!(m.advance(Reply::Executed), Step::Run(Statement::VaultSecrets { vault_id: 1 })));
    assert!(matches!(m.advance(Reply::VaultSecrets(Vec::new())), Step::Run(Statement::VaultForUser { vault_id: 1, user_id: 10 })));
    assert!(matches!(m.advance(Reply::Vault(Some(VaultRow { name: "v".into() }))), Step::Run(Statement::UserVault { user_id: 10, vault_id: 1 })));
    assert!(matches!(m.advance(Reply::UserVault(None)), Step::Finish(Err(AccessError::Internal))));
}

#[test]
fn malformed_assertion_is_internal() {
    let mut s = store();
    assert_eq!(fetch_vault(&s, Some("x1"), 1).err(), Some(AccessError::Internal));
    assert_eq!(create(&mut s, Some("-3"), Vec::new()), Err(AccessError::Internal));
}

#[test]
fn denied_entry_aborts_whole_batch() {
    let mut s = store();
    s.vaults.push((1, "prod".to_string()));
    s.grants.push(grant(10, 1));
    s.accounts.push(account(1, None, None, "k1"));
    s.accounts.push(account(2, Some(1), Some(3), "k2"));
    let batch = vec![
        entry(1, "k1", vec![payload("a", "ia", "va"), payload("b", "ib", "vb")]),
        entry(2, "k2", vec![payload("c", "ic", "vc")]),
    ];
    assert_eq!(create(&mut s, Some("11"), batch), Err(AccessError::PermissionDenied));
    assert_eq!(secrets_of(&s, 1), 0);
    assert_eq!(secrets_of(&s, 2), 0);
}

#[test]
fn unconnected_account_is_writable_by_any_user() {
    for user in ["1", "2", "4000000000"] {
        let mut s = store();
        s.accounts.push(account(1, None, None, "k1"));
        assert_eq!(create(&mut s, Some(user), vec![entry(1, "k1", vec![payload("a", "ia", "va")])]), Ok(()));
        assert_eq!(secrets_of(&s, 1), 1);
    }
}

#[test]
fn unknown_account_is_not_found() {
    let mut s = store();
    s.accounts.push(account(1, None, None, "k1"));
    let batch = vec![entry(1, "k1", vec![payload("a", "ia", "va")]), entry(9, "k9", vec![payload("b", "ib", "vb")])];
    assert_eq!(create(&mut s, Some("1"), batch), Err(AccessError::NotFound));
    assert_eq!(secrets_of(&s, 1), 0);
    assert_eq!(fetch_account(&s, "nobody").err(), Some(AccessError::NotFound));
}

#[test]
fn database_error_aborts_with_internal() {
    let mut s = store();
    s.accounts.push(account(1, None, None, "k1"));
    s.fail_inserts = true;
    assert_eq!(create(&mut s, Some("1"), vec![entry(1, "k1", vec![payload("a", "ia", "va")])]), Err(AccessError::Internal));
    assert_eq!(secrets_of(&s, 1), 0);
    let mut m = ServiceAccountFetch::start("k1".to_string()).0;
    assert!(matches!(m.advance(Reply::DatabaseError), Step::Finish(Err(AccessError::Internal))));
}

#[test]
fn empty_batch_commits() {
    let mut m = SecretsCreation::start(Some(b"3".as_slice()), Vec::new()).0;
    assert!(matches!(m.advance(Reply::Executed), Step::Run(Statement::Commit)));
    assert!(matches!(m.advance(Reply::Executed), Step::Finish(Ok(()))));
}

#[test]
fn unexpected_reply_is_internal() {
    let mut m = SecretsCreation::start(Some(b"3".as_slice()), Vec::new()).0;
    assert!(matches!(m.advance(Reply::Grants(1)), Step::Finish(Err(AccessError::Internal))));
    assert!(matches!(m.advance(Reply::Executed), Step::Finish(Err(AccessError::Internal))));
}

#[test]
fn written_secrets_read_back_unchanged() {
    let mut s = store();
    s.accounts.push(account(1, None, None, "k1"));
    let sent = vec![payload("enc-name", "blind", "enc-value"), payload("n2", "b2", "v2")];
    assert_eq!(create(&mut s, Some("1"), vec![entry(1, "k1", sent.clone())]), Ok(()));
    let r = fetch_account(&s, "k1").unwrap();
    assert_eq!(r.service_account_id, 1);
    assert_eq!(r.secrets.len(), 2);
    for (got, p) in r.secrets.iter().zip(sent.iter()) {
        assert_eq!(got.encrypted_name, p.encrypted_name);
        assert_eq!(got.name_blind_index, p.name_blind_index);
        assert_eq!(got.encrypted_secret_value, p.encrypted_secret_value);
        assert_eq!(got.ecdh_public_key, "k1");
    }
}

#[test]
fn fetches_for_different_keys_are_isolated() {
    let mut s = store();
    s.accounts.push(account(1, None, None, "k1"));
    s.accounts.push(account(2, None, None, "k2"));
    assert_eq!(create(&mut s, Some("1"), vec![entry(1, "k1", vec![payload("a", "ia", "va")])]), Ok(()));
    assert_eq!(create(&mut s, Some("1"), vec![entry(2, "k2", vec![payload("b", "ib", "vb"), payload("c", "ic", "vc")])]), Ok(()));
    let one = fetch_account(&s, "k1").unwrap();
    let two = fetch_account(&s, "k2").unwrap();
    assert_eq!(one.service_account_id, 1);
    assert_eq!(one.secrets.iter().map(|x| x.encrypted_name.clone()).collect::<Vec<_>>(), vec!["a".to_string()]);
    assert_eq!(two.service_account_id, 2);
    assert_eq!(two.secrets.iter().map(|x| x.encrypted_name.clone()).collect::<Vec<_>>(), vec!["b".to_string(), "c".to_string()]);
}

#[test]
fn connect_then_grant_scenario() {
    let mut s = store();
    s.vaults.push((1, "V1".to_string()));
    s.accounts.push(account(1, None, None, "sa1-key"));
    // U1, with no grants, writes to the unconnected SA1.
    assert_eq!(create(&mut s, Some("1"), vec![entry(1, "sa1-key", vec![payload("a", "ia", "va")])]), Ok(()));
    assert_eq!(secrets_of(&s, 1), 1);
    // SA1 is connected to V1; U2 holds no grant on V1.
    s.accounts[0].vault_id = Some(1);
    s.accounts[0].environment_id = Some(7);
    assert_eq!(
        create(&mut s, Some("2"), vec![entry(1, "sa1-key", vec![payload("b", "ib", "vb")])]),
        Err(AccessError::PermissionDenied)
    );
    assert_eq!(secrets_of(&s, 1), 1);
    // U1 is granted V1 and repeats the call.
    s.grants.push(grant(1, 1));
    assert_eq!(create(&mut s, Some("1"), vec![entry(1, "sa1-key", vec![payload("a", "ia", "va")])]), Ok(()));
    assert_eq!(secrets_of(&s, 1), 2);
    let v = fetch_vault(&s, Some("1"), 1).unwrap();
    assert_eq!(v.service_accounts.len(), 1);
    assert_eq!(v.service_accounts[0].service_account_id, 1);
    assert_eq!(v.service_accounts[0].environment_id, 7);
}

#[test]
fn ownership_guard_needs_a_grant_row() {
    assert_eq!(cloak_access::ownership_guard(0), Err(AccessError::PermissionDenied));
    assert_eq!(cloak_access::ownership_guard(1), Ok(()));
    assert_eq!(cloak_access::ownership_guard(3), Ok(()));
}
