use launchcore::accounts::{AccountStorage, AccountStore, StoredAccount};
use launchcore::auth::{Account, MicrosoftAccount, OfflineAccount};

fn offline(name: &str, uuid: &str) -> Account {
    Account::Offline(OfflineAccount { username: name.to_string(), uuid: uuid.to_string() })
}

fn microsoft(name: &str, uuid: &str) -> Account {
    Account::Microsoft(MicrosoftAccount {
        username: name.to_string(),
        uuid: uuid.to_string(),
        access_token: "tok".to_string(),
        refresh_token: None,
        expires_at: 99,
    })
}

#[test]
fn storage_path_under_app_dir() {
    let s = AccountStorage::new("/data");
    assert_eq!(s.file_path(), "/data/accounts.json");
}

#[test]
fn add_replaces_same_id_and_activates() {
    let s = AccountStorage::new("/data");
    let mut store = AccountStore::new();
    s.add_or_update_account(&mut store, &offline("A", "1"), None);
    s.add_or_update_account(&mut store, &microsoft("B", "2"), Some("ms".to_string()));
    s.add_or_update_account(&mut store, &offline("A2", "1"), None);
    let ids: Vec<String> = s.get_all_accounts(&store).iter().map(|a| a.id()).collect();
    assert_eq!(ids, vec!["2".to_string(), "1".to_string()]);
    assert_eq!(store.active_account_id.as_deref(), Some("1"));
    match &store.accounts[1] {
        StoredAccount::Offline(o) => assert_eq!(o.username, "A2"),
        _ => panic!("expected offline"),
    }
}

#[test]
fn active_account_carries_refresh_token() {
    let s = AccountStorage::new("/data");
    let mut store = AccountStore::new();
    s.add_or_update_account(&mut store, &microsoft("B", "2"), Some("ms".to_string()));
    let (acc, ms) = s.get_active_account(&store).unwrap();
    assert_eq!(acc.id(), "2");
    assert_eq!(ms.as_deref(), Some("ms"));
    match acc.to_account() {
        Account::Microsoft(m) => assert_eq!(m.access_token, "tok"),
        _ => panic!("expected federated"),
    }
}

#[test]
fn removing_active_account_selects_first_remaining() {
    let s = AccountStorage::new("/data");
    let mut store = AccountStore::new();
    s.add_or_update_account(&mut store, &offline("A", "1"), None);
    s.add_or_update_account(&mut store, &offline("B", "2"), None);
    s.remove_account(&mut store, "2");
    assert_eq!(store.active_account_id.as_deref(), Some("1"));
    s.remove_account(&mut store, "1");
    assert!(store.active_account_id.is_none());
    assert!(s.get_active_account(&store).is_none());
}

#[test]
fn set_active_requires_known_account() {
    let s = AccountStorage::new("/data");
    let mut store = AccountStore::new();
    s.add_or_update_account(&mut store, &offline("A", "1"), None);
    s.add_or_update_account(&mut store, &offline("B", "2"), None);
    assert!(s.set_active_account(&mut store, "1").is_ok());
    assert_eq!(store.active_account_id.as_deref(), Some("1"));
    assert_eq!(s.set_active_account(&mut store, "9"), Err("Account not found".to_string()));
    assert_eq!(store.active_account_id.as_deref(), Some("1"));
}

#[test]
fn stored_form_round_trip() {
    let stored = StoredAccount::from_account(&microsoft("B", "2"), Some("ms".to_string()));
    match &stored {
        StoredAccount::Microsoft(m) => {
            assert_eq!(m.ms_refresh_token.as_deref(), Some("ms"));
            assert_eq!(m.expires_at, 99);
        }
        _ => panic!("expected federated"),
    }
    assert_eq!(stored.to_account().username(), "B");
}
