//! The durable credential store: one record per account id and a pointer to
//! the active account. Reading and writing the file is left to the caller;
//! these operations compute the next content of the store.

use vstd::prelude::*;
use crate::auth::{Account, MicrosoftAccount, OfflineAccount};
use crate::text::{join, join_path};

verus! {

/// A federated account as stored, with its service refresh token.
#[derive(Debug, Clone)]
pub struct StoredMicrosoftAccount {
    pub username: String,
    pub uuid: String,
    pub access_token: String,
    pub refresh_token: Option<String>,
    pub ms_refresh_token: Option<String>,
    pub expires_at: i64,
}

/// One stored account.
#[derive(Debug, Clone)]
pub enum StoredAccount {
    Offline(OfflineAccount),
    Microsoft(StoredMicrosoftAccount),
}

/// Content of the credential store.
#[derive(Debug, Clone)]
pub struct AccountStore {
    pub accounts: Vec<StoredAccount>,
    pub active_account_id: Option<String>,
}

impl AccountStore {
    /// A store with no account.
    pub fn new() -> (r: Self)
        ensures
            r.accounts@.len() == 0,
            r.active_account_id.is_none(),
    {
        AccountStore { accounts: Vec::new(), active_account_id: None }
    }
}

/// The key of a stored account: its identity.
pub open spec fn stored_id(a: StoredAccount) -> Seq<char> {
    match a {
        StoredAccount::Offline(o) => o.uuid@,
        StoredAccount::Microsoft(m) => m.uuid@,
    }
}

/// Whether `s` is the stored form of `account` with service token `ms`.
pub open spec fn is_stored_form(s: StoredAccount, account: Account, ms: Option<String>) -> bool {
    match (s, account) {
        (StoredAccount::Offline(o), Account::Offline(a)) => o == a,
        (StoredAccount::Microsoft(m), Account::Microsoft(a)) => m.username == a.username && m.uuid
            == a.uuid && m.access_token == a.access_token && m.refresh_token == a.refresh_token
            && m.expires_at == a.expires_at && m.ms_refresh_token == ms,
        _ => false,
    }
}

/// The service refresh token a stored account keeps (none when offline).
pub open spec fn stored_ms_token(s: StoredAccount) -> Option<String> {
    match s {
        StoredAccount::Microsoft(m) => m.ms_refresh_token,
        StoredAccount::Offline(_) => None,
    }
}

/// `accs` without the accounts whose id is `id`, order kept.
pub open spec fn without_id(accs: Seq<StoredAccount>, id: Seq<char>) -> Seq<StoredAccount>
    decreases accs.len(),
{
    if accs.len() == 0 {
        Seq::empty()
    } else if stored_id(accs.last()) == id {
        without_id(accs.drop_last(), id)
    } else {
        without_id(accs.drop_last(), id).push(accs.last())
    }
}

/// Index of the first account whose id is `id`, or -1.
pub open spec fn first_index_of_id(accs: Seq<StoredAccount>, id: Seq<char>) -> int
    decreases accs.len(),
{
    if accs.len() == 0 {
        -1
    } else if first_index_of_id(accs.drop_last(), id) >= 0 {
        first_index_of_id(accs.drop_last(), id)
    } else if stored_id(accs.last()) == id {
        accs.len() - 1
    } else {
        -1
    }
}

/// `first_index_of_id` is -1 or the position of the first account with that id.
pub proof fn lemma_first_index_of_id(accs: Seq<StoredAccount>, id: Seq<char>)
    ensures
        -1 <= first_index_of_id(accs, id) < accs.len(),
        first_index_of_id(accs, id) >= 0 ==> stored_id(accs[first_index_of_id(accs, id)]) == id,
        first_index_of_id(accs, id) >= 0 ==> forall|k: int|
            0 <= k < first_index_of_id(accs, id) ==> stored_id(accs[k]) != id,
        first_index_of_id(accs, id) == -1 ==> forall|k: int|
            0 <= k < accs.len() ==> stored_id(accs[k]) != id,
    decreases accs.len(),
{
    if accs.len() > 0 {
        lemma_first_index_of_id(accs.drop_last(), id);
        assert forall|k: int| 0 <= k < accs.len() - 1 implies accs[k] == accs.drop_last()[k] by {}
    }
}

fn copy_opt(o: &Option<String>) -> (r: Option<String>)
    ensures
        r == *o,
{
    match o {
        Some(s) => Some(s.clone()),
        None => None,
    }
}

fn copy_offline(a: &OfflineAccount) -> (r: OfflineAccount)
    ensures
        r == *a,
{
    OfflineAccount { username: a.username.clone(), uuid: a.uuid.clone() }
}

fn copy_stored(a: &StoredAccount) -> (r: StoredAccount)
    ensures
        r == *a,
{
    match a {
        StoredAccount::Offline(o) => StoredAccount::Offline(copy_offline(o)),
        StoredAccount::Microsoft(m) => StoredAccount::Microsoft(
            StoredMicrosoftAccount {
                username: m.username.clone(),
                uuid: m.uuid.clone(),
                access_token: m.access_token.clone(),
                refresh_token: copy_opt(&m.refresh_token),
                ms_refresh_token: copy_opt(&m.ms_refresh_token),
                expires_at: m.expires_at,
            },
        ),
    }
}

impl StoredAccount {
    /// The key of this account: its identity.
    pub fn id(&self) -> (r: String)
        ensures
            r@ == stored_id(*self),
    {
        match self {
            StoredAccount::Offline(a) => a.uuid.clone(),
            StoredAccount::Microsoft(a) => a.uuid.clone(),
        }
    }

    /// The session credential of this stored account.
    pub fn to_account(&self) -> (r: Account)
        ensures
            is_stored_form(*self, r, stored_ms_token(*self)),
    {
        match self {
            StoredAccount::Offline(a) => Account::Offline(copy_offline(a)),
            StoredAccount::Microsoft(a) => Account::Microsoft(
                MicrosoftAccount {
                    username: a.username.clone(),
                    uuid: a.uuid.clone(),
                    access_token: a.access_token.clone(),
                    refresh_token: copy_opt(&a.refresh_token),
                    expires_at: a.expires_at,
                },
            ),
        }
    }

    /// The stored form of `account`; the service refresh token is kept only
    /// for federated accounts.
    pub fn from_account(account: &Account, ms_refresh_token: Option<String>) -> (r: Self)
        ensures
            is_stored_form(r, *account, ms_refresh_token),
    {
        match account {
            Account::Offline(a) => StoredAccount::Offline(copy_offline(a)),
            Account::Microsoft(a) => StoredAccount::Microsoft(
                StoredMicrosoftAccount {
                    username: a.username.clone(),
                    uuid: a.uuid.clone(),
                    access_token: a.access_token.clone(),
                    refresh_token: copy_opt(&a.refresh_token),
                    ms_refresh_token,
                    expires_at: a.expires_at,
                },
            ),
        }
    }
}

/// Location of the credential store.
pub struct AccountStorage {
    file_path: String,
}

impl AccountStorage {
    /// Path of the store's file.
    pub closed spec fn spec_file_path(&self) -> Seq<char> {
        self.file_path@
    }

    /// The store kept as `accounts.json` under `app_data_dir`.
    pub fn new(app_data_dir: &str) -> (r: Self)
        ensures
            r.spec_file_path() == join_path(app_data_dir@, "accounts.json"@),
    {
        AccountStorage { file_path: join(app_data_dir, "accounts.json") }
    }

    /// Path of the store's file.
    pub fn file_path(&self) -> (r: &str)
        ensures
            r@ == self.spec_file_path(),
    {
        self.file_path.as_str()
    }

    /// Replaces any account with the same id by `account` (placed last) and
    /// makes it the active one.
    pub fn add_or_update_account(
        &self,
        store: &mut AccountStore,
        account: &Account,
        ms_refresh_token: Option<String>,
    )
        ensures
            final(store).accounts@.len() == without_id(old(store).accounts@, account.spec_uuid()).len()
                + 1,
            final(store).accounts@.drop_last() == without_id(old(store).accounts@, account.spec_uuid()),
            is_stored_form(final(store).accounts@.last(), *account, ms_refresh_token),
            final(store).active_account_id.is_some(),
            final(store).active_account_id.unwrap()@ == account.spec_uuid(),
    {
        let stored = StoredAccount::from_account(account, ms_refresh_token);
        let id = stored.id();
        remove_id(&mut store.accounts, id.as_str());
        store.accounts.push(stored);
        store.active_account_id = Some(id);
    }

    /// Removes the account `uuid`; when it was active, the first remaining
    /// account (if any) becomes active.
    pub fn remove_account(&self, store: &mut AccountStore, uuid: &str)
        ensures
            final(store).accounts@ == without_id(old(store).accounts@, uuid@),
            (old(store).active_account_id.is_some() && old(store).active_account_id.unwrap()@ == uuid@)
                ==> if final(store).accounts@.len() == 0 {
                final(store).active_account_id.is_none()
            } else {
                final(store).active_account_id.is_some() && final(store).active_account_id.unwrap()@
                    == stored_id(final(store).accounts@[0])
            },
            !(old(store).active_account_id.is_some() && old(store).active_account_id.unwrap()@
                == uuid@) ==> final(store).active_account_id == old(store).active_account_id,
    {
        remove_id(&mut store.accounts, uuid);
        let was_active = match &store.active_account_id {
            Some(a) => crate::text::str_eq(a.as_str(), uuid),
            None => false,
        };
        if was_active {
            store.active_account_id = if store.accounts.len() > 0 {
                Some(store.accounts[0].id())
            } else {
                None
            };
        }
    }

    /// The active account and, for federated accounts, its service refresh
    /// token.
    pub fn get_active_account(&self, store: &AccountStore) -> (r: Option<(StoredAccount, Option<String>)>)
        ensures
            store.active_account_id.is_none() ==> r.is_none(),
            store.active_account_id.is_some() ==> ({
                let k = first_index_of_id(store.accounts@, store.active_account_id.unwrap()@);
                if k < 0 {
                    r.is_none()
                } else {
                    r.is_some() && r.unwrap().0 == store.accounts@[k] && r.unwrap().1 == stored_ms_token(
                        store.accounts@[k],
                    )
                }
            }),
    {
        let active = match &store.active_account_id {
            Some(a) => a,
            None => {
                return None;
            },
        };
        proof {
            lemma_first_index_of_id(store.accounts@, active@);
        }
        match find_id(&store.accounts, active.as_str()) {
            None => None,
            Some(i) => {
                let a = copy_stored(&store.accounts[i]);
                let ms = match &a {
                    StoredAccount::Microsoft(m) => copy_opt(&m.ms_refresh_token),
                    StoredAccount::Offline(_) => None,
                };
                Some((a, ms))
            },
        }
    }

    /// Makes `uuid` the active account when the store holds it.
    pub fn set_active_account(&self, store: &mut AccountStore, uuid: &str) -> (r: Result<(), String>)
        ensures
            r is Ok <==> exists|k: int|
                0 <= k < old(store).accounts@.len() && stored_id(old(store).accounts@[k]) == uuid@,
            r is Ok ==> final(store).active_account_id.is_some()
                && final(store).active_account_id.unwrap()@ == uuid@,
            final(store).accounts == old(store).accounts,
            r is Err ==> final(store).active_account_id == old(store).active_account_id,
            r is Err ==> r->Err_0@ == "Account not found"@,
    {
        proof {
            lemma_first_index_of_id(store.accounts@, uuid@);
        }
        match find_id(&store.accounts, uuid) {
            Some(_) => {
                store.active_account_id = Some(String::from_str(uuid));
                Ok(())
            },
            None => Err(String::from_str("Account not found")),
        }
    }

    /// Every stored account, in stored order.
    pub fn get_all_accounts(&self, store: &AccountStore) -> (r: Vec<StoredAccount>)
        ensures
            r@ == store.accounts@,
    {
        let mut out: Vec<StoredAccount> = Vec::new();
        let mut i: usize = 0;
        while i < store.accounts.len()
            invariant
                i <= store.accounts@.len(),
                out@ == store.accounts@.subrange(0, i as int),
            decreases store.accounts@.len() - i,
        {
            out.push(copy_stored(&store.accounts[i]));
            i = i + 1;
        }
        assert(store.accounts@.subrange(0, store.accounts@.len() as int) == store.accounts@);
        out
    }
}

fn find_id(accs: &Vec<StoredAccount>, id: &str) -> (r: Option<usize>)
    ensures
        match r {
            None => first_index_of_id(accs@, id@) == -1,
            Some(i) => first_index_of_id(accs@, id@) == i as int,
        },
{
    let mut i: usize = 0;
    while i < accs.len()
        invariant
            i <= accs@.len(),
            forall|k: int| 0 <= k < i ==> stored_id(accs@[k]) != id@,
        decreases accs@.len() - i,
    {
        let k = accs[i].id();
        if crate::text::str_eq(k.as_str(), id) {
            proof {
                lemma_first_index_of_id(accs@, id@);
            }
            return Some(i);
        }
        i = i + 1;
    }
    proof {
        lemma_first_index_of_id(accs@, id@);
    }
    None
}

fn remove_id(accs: &mut Vec<StoredAccount>, id: &str)
    ensures
        final(accs)@ == without_id(old(accs)@, id@),
{
    let mut kept: Vec<StoredAccount> = Vec::new();
    let mut i: usize = 0;
    assert(accs@.subrange(0, 0) == Seq::<StoredAccount>::empty());
    while i < accs.len()
        invariant
            i <= accs@.len(),
            kept@ == without_id(accs@.subrange(0, i as int), id@),
        decreases accs@.len() - i,
    {
        assert(accs@.subrange(0, i + 1).drop_last() == accs@.subrange(0, i as int));
        let k = accs[i].id();
        if !crate::text::str_eq(k.as_str(), id) {
            kept.push(copy_stored(&accs[i]));
        }
        i = i + 1;
    }
    assert(accs@.subrange(0, accs@.len() as int) == accs@);
    *accs = kept;
}

} // verus!
