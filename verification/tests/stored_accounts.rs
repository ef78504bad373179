use openai_subscribed::accounts::{Account, AccountSwitchPolicy, Accounts};
use openai_subscribed::credentials::{CodexCredentials, TokenResponse};
use openai_subscribed::failure::AccountFailure;
use openai_subscribed::id_map::IdMap;
use openai_subscribed::oauth::{refresh_form, refresh_outcome};
use openai_subscribed::refresh::CredentialsSource;
use openai_subscribed::state::State;
use openai_subscribed::storage::{
    account_credentials_key, previous_accounts, save_plan, StoreStep, CREDENTIALS_KEY, INDEX_USER,
    RECORD_USER,
};
use openai_subscribed::time::now_ms;
use std::collections::BTreeMap;

fn make_fresh_credentials() -> CodexCredentials {
    CodexCredentials {
        access_token: "fresh_access".to_string(),
        refresh_token: "fresh_refresh".to_string(),
        scopes: Vec::new(),
        expires_at_ms: now_ms() + 3_600_000,
        account_id: None,
        email: None,
    }
}

enum Entry {
    Index(Accounts),
    Record(CodexCredentials),
}

#[derive(Default)]
struct Store {
    entries: BTreeMap<String, Entry>,
    log: Vec<String>,
}

impl Store {
    fn read(&self) -> Option<Result<Accounts, String>> {
        match self.entries.get(CREDENTIALS_KEY)? {
            Entry::Index(index) => Some(Accounts::decode(Some(index.clone()), Err(String::new()))),
            Entry::Record(single) => Some(Accounts::decode(None, Ok(single.clone()))),
        }
    }

    fn load(&self) -> Accounts {
        let mut accounts = match self.read() {
            Some(accounts) => accounts.expect("index"),
            None => return Accounts::default(),
        };
        let mut records = IdMap::new();
        for id in accounts.unread() {
            if let Some(Entry::Record(credentials)) =
                self.entries.get(&account_credentials_key(&id))
            {
                records.insert(id, credentials.clone());
            }
        }
        accounts.complete(&records);
        accounts
    }

    fn save(&mut self, accounts: &Accounts) {
        let previous = previous_accounts(self.read(), accounts).expect("previous");
        for step in save_plan(accounts, &previous) {
            match step {
                StoreStep::WriteRecord { key, credentials } => {
                    self.log.push("record".to_string());
                    self.entries.insert(key, Entry::Record(credentials));
                }
                StoreStep::WriteIndex { index } => {
                    self.log.push("index".to_string());
                    self.entries.insert(CREDENTIALS_KEY.to_string(), Entry::Index(index));
                }
                StoreStep::DeleteIndex => {
                    self.log.push("no index".to_string());
                    self.entries.remove(CREDENTIALS_KEY);
                }
                StoreStep::DeleteRecord { key } => {
                    self.log.push("no record".to_string());
                    self.entries.remove(&key);
                }
            }
        }
    }

    fn records(&self) -> usize {
        self.entries.keys().filter(|key| *key != CREDENTIALS_KEY).count()
    }
}

fn change(accounts: &mut Accounts, id: &str, edit: impl FnOnce(&mut Account)) {
    let mut account = accounts.accounts.remove(id).expect("account");
    edit(&mut account);
    accounts.accounts.insert(id.to_string(), account);
}

fn encoded_length(credentials: &CodexCredentials) -> usize {
    let mut members = serde_json::Map::new();
    let text = |content: &str| serde_json::Value::from(content);
    members.insert("access_token".to_string(), text(&credentials.access_token));
    members.insert("refresh_token".to_string(), text(&credentials.refresh_token));
    members.insert("expires_at_ms".to_string(), serde_json::Value::from(credentials.expires_at_ms));
    members.insert("account_id".to_string(), serde_json::Value::from(credentials.account_id.clone()));
    members.insert("email".to_string(), serde_json::Value::from(credentials.email.clone()));
    members.insert("scopes".to_string(), serde_json::Value::from(credentials.scopes.clone()));
    serde_json::to_vec(&serde_json::Value::Object(members)).expect("document").len()
}

#[test]
fn test_legacy_credentials_and_quota_round_trip() {
    let mut accounts =
        Accounts::decode(None, Ok(make_fresh_credentials())).expect("legacy credentials migrate");
    assert_eq!(accounts.accounts.len(), 1);
    let selected = accounts.selected.clone();
    change(&mut accounts, &selected, |account| account.quota_until_ms = u64::MAX);
    let restored = Accounts::decode(Some(accounts), Err(String::new())).expect("restore accounts");
    assert!(!restored
        .accounts
        .get(&restored.selected)
        .expect("account")
        .available("gpt-5.4"));
}

#[test]
fn test_accounts_use_separate_credential_records() {
    let mut store = Store::default();
    let mut accounts = Accounts::default();
    for id in ["first", "second"] {
        let mut credentials = make_fresh_credentials();
        credentials.account_id = Some(id.into());
        credentials.access_token = "a".repeat(1800);
        accounts.insert(credentials);
    }
    change(&mut accounts, "first", |first| {
        first.quota_until_ms = u64::MAX;
        first.status = "Plan quota reached".into();
    });
    store.save(&accounts);
    assert_eq!(store.records(), 2);
    assert!(store.entries.values().all(|entry| match entry {
        Entry::Record(credentials) => encoded_length(credentials) <= 2560,
        Entry::Index(_) => true,
    }));
    let mut restored = store.load();
    assert_eq!(restored.accounts.len(), 2);
    assert!(!restored.accounts.get("first").expect("first").available("gpt-5.4"));
    assert!(restored.accounts.get("second").expect("second").available("gpt-5.4"));
    let credentials = restored
        .accounts
        .get("first")
        .expect("first")
        .credentials
        .clone()
        .expect("credentials");
    change(&mut restored, "first", |first| {
        first.needs_reauth = true;
        first.status = "Sign in again".into();
    });
    restored.insert(credentials);
    assert!(
        !restored.accounts.get("first").expect("first").available("gpt-5.4"),
        "reauth must not clear quota"
    );
    restored.accounts.remove("first");
    store.save(&restored);
    assert_eq!(store.records(), 1);
}

#[test]
fn the_index_follows_the_records() {
    let mut store = Store::default();
    let mut accounts = Accounts::default();
    for id in ["b", "a"] {
        let mut credentials = make_fresh_credentials();
        credentials.email = Some(id.into());
        accounts.insert(credentials);
    }
    store.save(&accounts);
    assert_eq!(store.log, ["record", "record", "index"]);
    match store.entries.get(CREDENTIALS_KEY) {
        Some(Entry::Index(index)) => {
            assert_eq!(index.selected, "a");
            assert!(index.accounts.get("a").expect("a").credentials.is_none());
        }
        _ => panic!("an index"),
    }
    store.log.clear();
    store.save(&Accounts::default());
    assert_eq!(store.log, ["no index", "no record", "no record"]);
    assert!(store.entries.is_empty());
    assert_eq!(INDEX_USER, "Accounts");
    assert_eq!(RECORD_USER, "Bearer");
}

#[test]
fn what_was_saved_is_loaded() {
    let mut store = Store::default();
    let mut accounts = Accounts::default();
    let mut credentials = make_fresh_credentials();
    credentials.account_id = Some("one".into());
    credentials.scopes = vec!["x".into(), "y".into()];
    accounts.insert(credentials);
    change(&mut accounts, "one", |account| {
        account.unavailable_until_ms = 5;
        account.blocked_models.push("gpt-5.5".to_string());
        account.status = "Rate limited".into();
    });
    store.save(&accounts);
    let loaded = store.load();
    let account = loaded.accounts.get("one").expect("account");
    let kept = account.credentials.as_ref().expect("credentials");
    assert_eq!(loaded.selected, "one");
    assert_eq!(kept.access_token, "fresh_access");
    assert_eq!(kept.scopes, ["x", "y"]);
    assert_eq!(account.unavailable_until_ms, 5);
    assert_eq!(account.blocked_models, ["gpt-5.5"]);
    assert_eq!(account.status, "Rate limited");
}

#[test]
fn a_missing_record_asks_for_a_sign_in() {
    let mut store = Store::default();
    let mut accounts = Accounts::default();
    let mut credentials = make_fresh_credentials();
    credentials.account_id = Some("one".into());
    accounts.insert(credentials);
    store.save(&accounts);
    store.entries.remove(&account_credentials_key("one"));
    let loaded = store.load();
    let account = loaded.accounts.get("one").expect("account");
    assert!(account.needs_reauth);
    assert_eq!(account.status, "Saved credentials are missing. Sign in again");
    assert!(!account.available("gpt-5.4"));
}

#[test]
fn unreadable_indexes_are_kept_while_there_are_accounts() {
    let unreadable = || Some(Err("unreadable".to_string()));
    assert!(previous_accounts(unreadable(), &Accounts::default()).is_ok());
    let mut accounts = Accounts::default();
    accounts.insert(make_fresh_credentials());
    assert_eq!(previous_accounts(unreadable(), &accounts).err(), Some("unreadable".to_string()));
    assert_eq!(previous_accounts(None, &accounts).expect("none").accounts.len(), 0);
    assert_eq!(
        Accounts::decode(None, Err("unreadable".to_string())).err(),
        Some("unreadable".to_string())
    );
}

#[test]
fn record_keys_are_digests() {
    // The SHA-256 digest of "abc" in URL-safe base64.
    assert_eq!(
        account_credentials_key("abc"),
        "https://chatgpt.com/backend-api/codex/accounts/ungWv48Bz-pBQUDeXa4iI7ADYaOWF3qctBD_YfIAFa0"
    );
}

#[test]
fn sign_ins_choose_an_id_and_keep_quota() {
    let mut accounts = Accounts::default();
    let mut credentials = make_fresh_credentials();
    accounts.insert(credentials.clone());
    assert_eq!(accounts.selected, "legacy");
    credentials.email = Some("me@example.com".into());
    accounts.insert(credentials.clone());
    assert_eq!(accounts.selected, "me@example.com");
    credentials.account_id = Some("id".into());
    accounts.insert(credentials.clone());
    assert_eq!(accounts.selected, "id");
    change(&mut accounts, "id", |account| {
        account.quota_until_ms = 100;
        account.billing_blocked = true;
        account.needs_reauth = true;
    });
    accounts.insert_at(credentials.clone(), 99);
    let account = accounts.accounts.get("id").expect("id");
    assert_eq!(account.status, "Plan quota reached");
    assert!(!account.available_at("m", 99));
    assert!(account.available_at("m", 100));
    accounts.insert_at(credentials, 100);
    assert_eq!(accounts.accounts.get("id").expect("id").status, "");
    assert_eq!(accounts.accounts.len(), 3);
}

#[test]
fn failures_hinder_accounts() {
    let mut accounts = Accounts::default();
    let mut credentials = make_fresh_credentials();
    credentials.account_id = Some("id".into());
    accounts.insert(credentials);
    let record = |accounts: &mut Accounts, token: &str, failure: AccountFailure| {
        accounts.record_failure("id", "m", token, &failure)
    };
    assert!(!record(&mut accounts, "fresh_access", AccountFailure::Transient));
    assert!(!record(&mut accounts, "fresh_access", AccountFailure::Other));
    assert!(!record(&mut accounts, "stale", AccountFailure::Unauthorized));
    assert!(!record(&mut accounts, "stale", AccountFailure::NeedsReauth));
    assert!(!accounts.record_failure("nobody", "m", "", &AccountFailure::Billing));
    assert!(accounts.accounts.get("id").expect("id").available("m"));

    assert!(record(&mut accounts, "stale", AccountFailure::RateLimit(50)));
    assert!(record(&mut accounts, "stale", AccountFailure::RateLimit(20)));
    let account = accounts.accounts.get("id").expect("id");
    assert_eq!(account.unavailable_until_ms, 50);
    assert_eq!(account.status, "Rate limited");
    assert!(!account.available_at("m", 49));
    assert!(account.available_at("m", 50));

    assert!(record(&mut accounts, "", AccountFailure::Scope(None)));
    assert!(record(&mut accounts, "", AccountFailure::Scope(Some("s".into()))));
    let account = accounts.accounts.get("id").expect("id");
    assert_eq!(account.blocked_models, ["m"]);
    assert_eq!(account.status, "Missing permission for m");
    assert!(!account.available_at("m", 50));
    assert!(account.available_at("other", 50));

    assert!(record(&mut accounts, "", AccountFailure::Quota(90)));
    assert_eq!(accounts.accounts.get("id").expect("id").quota_until_ms, 90);
    assert!(record(&mut accounts, "", AccountFailure::Billing));
    assert_eq!(accounts.accounts.get("id").expect("id").status, "Billing requires attention");
    assert!(record(&mut accounts, "fresh_access", AccountFailure::Unauthorized));
    let account = accounts.accounts.get("id").expect("id");
    assert!(account.needs_reauth);
    assert_eq!(account.status, "Sign in again");
}

#[test]
fn ids_are_kept_in_order() {
    let mut map = IdMap::new();
    for id in ["b", "", "ab", "ä", "a", "b"] {
        map.insert(id.to_string(), id.len());
    }
    let ids: Vec<&str> = (0..map.len()).map(|i| map.id_at(i).as_str()).collect();
    assert_eq!(ids, ["", "a", "ab", "b", "ä"]);
    assert_eq!(map.remove("ab"), Some(2));
    assert_eq!(map.remove("ab"), None);
    assert_eq!(map.get("ä"), Some(&2));
    assert!(!map.contains_key("c"));
    assert_eq!(*map.value_at(0), 0);
}

#[test]
fn accounts_are_switched_by_default() {
    assert_eq!(AccountSwitchPolicy::default(), AccountSwitchPolicy::OnError);
    assert_eq!(AccountSwitchPolicy::OnError.toggled(), AccountSwitchPolicy::Manual);
    assert_eq!(AccountSwitchPolicy::Manual.toggled(), AccountSwitchPolicy::OnError);
}

fn expired_credentials(id: &str, refresh_token: &str) -> CodexCredentials {
    CodexCredentials {
        access_token: "old_access".to_string(),
        refresh_token: refresh_token.to_string(),
        scopes: Vec::new(),
        expires_at_ms: 0,
        account_id: Some(id.to_string()),
        email: None,
    }
}

fn renewal(state: &State<u32>, id: &str) -> CodexCredentials {
    match state.credentials_source(id, None) {
        CredentialsSource::Renew(credentials) => credentials,
        _ => panic!("a renewal"),
    }
}

#[test]
fn test_accounts_refresh_independently() {
    let mut store = Store::default();
    let mut state: State<u32> = State::new(0);
    state.finish_load();
    state.accounts.insert(expired_credentials("first", "first_refresh"));
    state.accounts.insert(expired_credentials("second", "second_refresh"));
    let first = renewal(&state, "first");
    state.keep_refresh("first".to_string(), 1);
    let second = renewal(&state, "second");
    state.keep_refresh("second".to_string(), 2);

    let mut calls = 0;
    for (id, used, expected) in
        [("first", first, "first_access"), ("second", second, "second_access")]
    {
        calls += 1;
        let token = if refresh_form(&used.refresh_token).contains("first_refresh") {
            "first_access"
        } else {
            "second_access"
        };
        let issued = TokenResponse {
            scope: None,
            access_token: token.to_string(),
            refresh_token: "fresh_refresh".to_string(),
            id_token: None,
            expires_in: 3600,
            email: None,
        };
        let result = refresh_outcome(200, "", Ok(issued), now_ms());
        let (result, effects) = state.finish_refresh(id, &used, result);
        assert!(effects.persist && effects.notify);
        assert_eq!(result.expect("refresh").access_token, expected);
        let (_, accounts) = state.begin_persist();
        store.save(&accounts);
    }
    assert_eq!(calls, 2);

    let restored = store.load();
    for (id, expected) in [("first", "first_access"), ("second", "second_access")] {
        assert_eq!(
            restored
                .accounts
                .get(id)
                .expect("account")
                .credentials
                .as_ref()
                .expect("credentials")
                .access_token,
            expected
        );
    }
}
