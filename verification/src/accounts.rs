//! The accounts that are signed in, and which of them can serve a request.
use crate::credentials::{CodexCredentials, CredentialsModel};
use crate::failure::{AccountFailure, FailureModel};
use crate::id_map;
use crate::id_map::IdMap;
use crate::text;
use crate::time;
use std::time::SystemTime;
use vstd::prelude::*;
use vstd::string::*;

verus! {

/// Whether another account takes over where one fails.
#[derive(Clone, Copy, Debug, PartialEq, Eq, Structural)]
pub enum AccountSwitchPolicy {
    Manual,
    OnError,
}

impl Default for AccountSwitchPolicy {
    fn default() -> (r: Self)
        ensures
            r == AccountSwitchPolicy::OnError,
    {
        AccountSwitchPolicy::OnError
    }
}

/// What is shown of an account whose plan has no quota left.
pub const QUOTA_STATUS: &'static str = "Plan quota reached";

/// What is shown of an account that sent too many requests.
pub const RATE_STATUS: &'static str = "Rate limited";

/// What is shown of an account whose tokens are no longer taken.
pub const REAUTH_STATUS: &'static str = "Sign in again";

/// What is shown of an account that cannot be billed.
pub const BILLING_STATUS: &'static str = "Billing requires attention";

/// What is shown of an account whose tokens could not be found.
pub const MISSING_STATUS: &'static str = "Saved credentials are missing. Sign in again";

/// An account, and what keeps it from serving requests.
#[derive(Debug)]
pub struct Account {
    pub credentials: Option<CodexCredentials>,
    pub needs_reauth: bool,
    pub billing_blocked: bool,
    pub unavailable_until_ms: u64,
    pub quota_until_ms: u64,
    pub blocked_models: Vec<String>,
    pub status: String,
}

/// What an account holds.
#[verifier::ext_equal]
pub struct AccountModel {
    pub credentials: Option<CredentialsModel>,
    pub needs_reauth: bool,
    pub billing_blocked: bool,
    pub unavailable_until_ms: u64,
    pub quota_until_ms: u64,
    pub blocked_models: Seq<Seq<char>>,
    pub status: Seq<char>,
}

impl View for Account {
    type V = AccountModel;

    open spec fn view(&self) -> AccountModel {
        AccountModel {
            credentials: match self.credentials {
                Some(credentials) => Some(credentials@),
                None => None,
            },
            needs_reauth: self.needs_reauth,
            billing_blocked: self.billing_blocked,
            unavailable_until_ms: self.unavailable_until_ms,
            quota_until_ms: self.quota_until_ms,
            blocked_models: self.blocked_models.deep_view(),
            status: self.status@,
        }
    }
}

impl AccountModel {
    /// An account that nothing keeps from serving requests.
    pub open spec fn unhindered(credentials: Option<CredentialsModel>) -> AccountModel {
        AccountModel {
            credentials,
            needs_reauth: false,
            billing_blocked: false,
            unavailable_until_ms: 0,
            quota_until_ms: 0,
            blocked_models: Seq::empty(),
            status: Seq::empty(),
        }
    }

    /// The account is signed in, paid for, and may use the model.
    pub open spec fn entitled(self, model: Seq<char>) -> bool {
        &&& self.credentials is Some
        &&& !self.needs_reauth
        &&& !self.billing_blocked
        &&& !self.blocked_models.contains(model)
    }

    /// The account can serve a request for the model at `now`.
    pub open spec fn available_at(self, model: Seq<char>, now: u64) -> bool {
        &&& self.entitled(model)
        &&& self.unavailable_until_ms <= now
        &&& self.quota_until_ms <= now
    }

    /// The account is signed in.
    pub open spec fn signed_in(self) -> bool {
        self.credentials is Some && !self.needs_reauth
    }
}

impl Default for Account {
    fn default() -> (r: Self)
        ensures
            r@ == AccountModel::unhindered(None),
    {
        let r = Account {
            credentials: None,
            needs_reauth: false,
            billing_blocked: false,
            unavailable_until_ms: 0,
            quota_until_ms: 0,
            blocked_models: Vec::new(),
            status: String::new(),
        };
        assert(r@ =~= AccountModel::unhindered(None)) by {
            reveal_strlit("");
        }
        r
    }
}

impl Clone for Account {
    fn clone(&self) -> (copy: Self)
        ensures
            copy@ == self@,
    {
        Account {
            credentials: match &self.credentials {
                Some(credentials) => Some(credentials.clone()),
                None => None,
            },
            needs_reauth: self.needs_reauth,
            billing_blocked: self.billing_blocked,
            unavailable_until_ms: self.unavailable_until_ms,
            quota_until_ms: self.quota_until_ms,
            blocked_models: text::copy_list(&self.blocked_models),
            status: self.status.clone(),
        }
    }
}

impl Account {
    /// Whether the account can serve a request for a model at a time.
    pub fn available_at(&self, model: &str, now: u64) -> (r: bool)
        ensures
            r == self@.available_at(model@, now),
    {
        self.credentials.is_some() && !self.needs_reauth && !self.billing_blocked
            && self.unavailable_until_ms <= now && self.quota_until_ms <= now && !text::listed(
            &self.blocked_models,
            model,
        )
    }

    /// Whether the account can serve a request for a model by the wall clock.
    pub fn available(&self, model: &str) -> (r: bool)
        ensures
            exists|reading: SystemTime|
                r == self@.available_at(model@, #[trigger] time::read_ms(reading)),
            r ==> self@.entitled(model@),
            self.unavailable_until_ms == 0 && self.quota_until_ms == 0 ==> r == self@.entitled(
                model@,
            ),
    {
        let now = time::now_ms();
        self.available_at(model, now)
    }

    /// Whether the account is signed in.
    pub fn signed_in(&self) -> (r: bool)
        ensures
            r == self@.signed_in(),
    {
        self.credentials.is_some() && !self.needs_reauth
    }
}

/// The accounts by id, and the id of the one to use.
pub struct Accounts {
    pub accounts: IdMap<Account>,
    pub selected: String,
}

/// What the accounts hold.
#[verifier::ext_equal]
pub struct AccountsModel {
    pub accounts: Map<Seq<char>, AccountModel>,
    pub selected: Seq<char>,
}

/// What a map of accounts holds.
pub open spec fn account_models(accounts: Map<Seq<char>, Account>) -> Map<Seq<char>, AccountModel> {
    accounts.map_values(|account: Account| account@)
}

impl View for Accounts {
    type V = AccountsModel;

    open spec fn view(&self) -> AccountsModel {
        AccountsModel { accounts: account_models(self.accounts@), selected: self.selected@ }
    }
}

impl AccountsModel {
    /// No account.
    pub open spec fn none() -> AccountsModel {
        AccountsModel { accounts: Map::empty(), selected: Seq::empty() }
    }

    /// The ids in their order.
    pub open spec fn order(self) -> Seq<Seq<char>> {
        id_map::key_order(self.accounts.dom())
    }

    /// The accounts with another one in the place of the account `id`.
    pub open spec fn with(self, id: Seq<char>, account: AccountModel) -> AccountsModel {
        AccountsModel { accounts: self.accounts.insert(id, account), ..self }
    }

    /// Any account is signed in.
    pub open spec fn authenticated(self) -> bool {
        exists|id: Seq<char>| #[trigger]
            self.accounts.contains_key(id) && self.accounts[id].signed_in()
    }

    /// The account that comes of credentials: nothing keeps it from serving requests but a quota
    /// that was used up before.
    pub open spec fn admitted(self, credentials: CredentialsModel, now: u64) -> AccountModel {
        let fresh = AccountModel::unhindered(Some(credentials));
        if self.accounts.contains_key(credentials.id()) {
            let until = self.accounts[credentials.id()].quota_until_ms;
            AccountModel {
                quota_until_ms: until,
                status: if until > now {
                    QUOTA_STATUS@
                } else {
                    fresh.status
                },
                ..fresh
            }
        } else {
            fresh
        }
    }

    /// The accounts after a sign-in at `now`, with the new account selected.
    pub open spec fn inserted(self, credentials: CredentialsModel, now: u64) -> AccountsModel {
        AccountsModel {
            accounts: self.accounts.insert(credentials.id(), self.admitted(credentials, now)),
            selected: credentials.id(),
        }
    }

    /// The selected id is that of an account, or empty.
    pub open spec fn selection_exists(self) -> bool {
        self.selected.len() == 0 || self.accounts.contains_key(self.selected)
    }
}

/// What a map of accounts holds after one of them was put in, or changed.
pub proof fn models_of_changed(accounts: Map<Seq<char>, Account>, id: Seq<char>, account: Account)
    ensures
        account_models(accounts.insert(id, account)) == account_models(accounts).insert(
            id,
            account@,
        ),
        account_models(accounts.remove(id).insert(id, account)) == account_models(accounts).insert(
            id,
            account@,
        ),
{
    assert(account_models(accounts.insert(id, account)) =~= account_models(accounts).insert(
        id,
        account@,
    ));
    assert(accounts.remove(id).insert(id, account) =~= accounts.insert(id, account));
}

impl Default for Accounts {
    fn default() -> (r: Self)
        ensures
            r@ == AccountsModel::none(),
    {
        let r = Accounts { accounts: IdMap::new(), selected: String::new() };
        assert(r@ =~= AccountsModel::none()) by {
            reveal_strlit("");
        }
        r
    }
}

impl Clone for Accounts {
    fn clone(&self) -> (copy: Self)
        ensures
            copy@ == self@,
    {
        let count = self.accounts.len();
        let ghost order = id_map::key_order(self.accounts@.dom());
        let mut accounts: IdMap<Account> = IdMap::new();
        let mut i: usize = 0;
        while i < count
            invariant
                count == order.len(),
                order == id_map::key_order(self.accounts@.dom()),
                i <= count,
                forall|id: Seq<char>| #[trigger]
                    accounts@.contains_key(id) <==> order.take(i as int).contains(id),
                forall|id: Seq<char>| #[trigger]
                    accounts@.contains_key(id) ==> self.accounts@.contains_key(id) && accounts@[id]@
                        == self.accounts@[id]@,
            decreases count - i,
        {
            let ghost before = accounts@;
            accounts.insert(self.accounts.id_at(i).clone(), self.accounts.value_at(i).clone());
            proof {
                id_map::take_next(order, i as int);
            }
            i += 1;
        }
        assert(order.take(i as int) =~= order);
        assert(account_models(accounts@) =~= account_models(self.accounts@));
        Accounts { accounts, selected: self.selected.clone() }
    }
}

impl Accounts {
    /// Takes in an account at a time, and selects it.
    pub fn insert_at(&mut self, credentials: CodexCredentials, now: u64)
        ensures
            final(self)@ == old(self)@.inserted(credentials@, now),
    {
        let id = credentials.id();
        let mut account = Account { credentials: Some(credentials), ..Account::default() };
        match self.accounts.get(&id) {
            Some(previous) => {
                account.quota_until_ms = previous.quota_until_ms;
                if account.quota_until_ms > now {
                    account.status = QUOTA_STATUS.to_owned();
                }
            },
            None => {},
        }
        proof {
            models_of_changed(self.accounts@, id@, account);
        }
        self.accounts.insert(id.clone(), account);
        self.selected = id;
    }

    /// Takes in an account by the wall clock, and selects it.
    pub fn insert(&mut self, credentials: CodexCredentials)
        ensures
            exists|reading: SystemTime|
                final(self)@ == old(self)@.inserted(
                    credentials@,
                    #[trigger] time::read_ms(reading),
                ),
    {
        let now = time::now_ms();
        self.insert_at(credentials, now);
    }

    /// The accounts that a saved index stands for: those it lists, or, where it was written when
    /// there was one account only, the account whose credentials it is.
    pub fn decode(index: Option<Accounts>, single: Result<CodexCredentials, String>) -> (r: Result<
        Accounts,
        String,
    >)
        ensures
            match (index, single) {
                (Some(accounts), _) => r == Ok::<Accounts, String>(accounts),
                (None, Ok(credentials)) => r matches Ok(accounts) && accounts@
                    == AccountsModel::none().inserted(credentials@, 0),
                (None, Err(unreadable)) => r == Err::<Accounts, String>(unreadable),
            },
    {
        match index {
            Some(accounts) => Ok(accounts),
            None => match single {
                Ok(credentials) => {
                    let mut accounts = Accounts::default();
                    accounts.insert_at(credentials, 0);
                    Ok(accounts)
                },
                Err(unreadable) => Err(unreadable),
            },
        }
    }
}

/// A sign-in keeps the quota of an account that was there before, and never makes it end earlier.
pub proof fn sign_in_keeps_quota(accounts: AccountsModel, credentials: CredentialsModel, now: u64)
    requires
        accounts.accounts.contains_key(credentials.id()),
    ensures
        accounts.inserted(credentials, now).accounts[credentials.id()].quota_until_ms
            == accounts.accounts[credentials.id()].quota_until_ms,
        forall|model: Seq<char>|
            accounts.accounts[credentials.id()].quota_until_ms > now
                ==> !#[trigger] accounts.inserted(
                credentials,
                now,
            ).accounts[credentials.id()].available_at(model, now),
{
}

/// A sign-in lifts all else that kept the account from serving requests.
pub proof fn sign_in_lifts_blocks(
    accounts: AccountsModel,
    credentials: CredentialsModel,
    model: Seq<char>,
    now: u64,
)
    requires
        accounts.accounts.contains_key(credentials.id())
            ==> accounts.accounts[credentials.id()].quota_until_ms <= now,
    ensures
        accounts.inserted(credentials, now).accounts[credentials.id()].available_at(model, now),
{
}

/// A sign-in selects its account and leaves the others as they are.
pub proof fn sign_in_touches_one_account(
    accounts: AccountsModel,
    credentials: CredentialsModel,
    now: u64,
    other: Seq<char>,
)
    ensures
        accounts.inserted(credentials, now).selected == credentials.id(),
        accounts.inserted(credentials, now).selection_exists(),
        accounts.inserted(credentials, now).authenticated(),
        other != credentials.id() ==> accounts.inserted(credentials, now).accounts.contains_key(
            other,
        ) == accounts.accounts.contains_key(other),
        other != credentials.id() && accounts.accounts.contains_key(other) ==> accounts.inserted(
            credentials,
            now,
        ).accounts[other] == accounts.accounts[other],
{
    let after = accounts.inserted(credentials, now);
    assert(after.accounts.contains_key(credentials.id()));
    assert(after.accounts[credentials.id()].signed_in());
}

/// What is shown of an account that may not use a model.
pub open spec fn permission_status(model: Seq<char>) -> Seq<char> {
    "Missing permission for "@ + model
}

/// The larger of two times.
pub open spec fn latest(a: u64, b: u64) -> u64 {
    if a < b {
        b
    } else {
        a
    }
}

impl AccountModel {
    /// The failure is that of a request with this account's access token, or of no token at all.
    pub open spec fn heeds(self, token: Seq<char>, failure: FailureModel) -> bool {
        failure is Unauthorized || failure is NeedsReauth ==> match self.credentials {
            Some(credentials) => credentials.access_token == token,
            None => true,
        }
    }

    /// The account after a failure of a request for the model.
    pub open spec fn hindered(self, model: Seq<char>, failure: FailureModel) -> AccountModel {
        match failure {
            FailureModel::Unauthorized => AccountModel {
                needs_reauth: true,
                status: REAUTH_STATUS@,
                ..self
            },
            FailureModel::NeedsReauth => AccountModel {
                needs_reauth: true,
                status: REAUTH_STATUS@,
                ..self
            },
            FailureModel::Scope(_) => AccountModel {
                blocked_models: if self.blocked_models.contains(model) {
                    self.blocked_models
                } else {
                    self.blocked_models.push(model)
                },
                status: permission_status(model),
                ..self
            },
            FailureModel::RateLimit(until) => AccountModel {
                unavailable_until_ms: latest(self.unavailable_until_ms, until),
                status: RATE_STATUS@,
                ..self
            },
            FailureModel::Quota(until) => AccountModel {
                quota_until_ms: latest(self.quota_until_ms, until),
                status: QUOTA_STATUS@,
                ..self
            },
            FailureModel::Billing => AccountModel {
                billing_blocked: true,
                status: BILLING_STATUS@,
                ..self
            },
            FailureModel::Transient => self,
            FailureModel::Other => self,
        }
    }
}

impl AccountsModel {
    /// The failure says something of the account `id`.
    pub open spec fn concerned(
        self,
        id: Seq<char>,
        token: Seq<char>,
        failure: FailureModel,
    ) -> bool {
        &&& self.accounts.contains_key(id)
        &&& self.accounts[id].heeds(token, failure)
        &&& !(failure is Transient)
        &&& !(failure is Other)
    }

    /// The accounts after a failure of a request that was sent for the account `id`.
    pub open spec fn after_failure(
        self,
        id: Seq<char>,
        model: Seq<char>,
        token: Seq<char>,
        failure: FailureModel,
    ) -> AccountsModel {
        if self.concerned(id, token, failure) {
            self.with(id, self.accounts[id].hindered(model, failure))
        } else {
            self
        }
    }
}

impl Account {
    fn hinder(&mut self, model: &str, failure: &AccountFailure)
        ensures
            final(self)@ == old(self)@.hindered(model@, failure@),
    {
        match failure {
            AccountFailure::Unauthorized | AccountFailure::NeedsReauth => {
                self.needs_reauth = true;
                self.status = REAUTH_STATUS.to_owned();
            },
            AccountFailure::Scope(_) => {
                if !text::listed(&self.blocked_models, model) {
                    let ghost before = self.blocked_models.deep_view();
                    self.blocked_models.push(model.to_owned());
                    assert(self.blocked_models.deep_view() =~= before.push(model@));
                }
                self.status = text::joined("Missing permission for ", model);
            },
            AccountFailure::RateLimit(until) => {
                if self.unavailable_until_ms < *until {
                    self.unavailable_until_ms = *until;
                }
                self.status = RATE_STATUS.to_owned();
            },
            AccountFailure::Quota(until) => {
                if self.quota_until_ms < *until {
                    self.quota_until_ms = *until;
                }
                self.status = QUOTA_STATUS.to_owned();
            },
            AccountFailure::Billing => {
                self.billing_blocked = true;
                self.status = BILLING_STATUS.to_owned();
            },
            AccountFailure::Transient | AccountFailure::Other => {},
        }
    }

    fn heeds(&self, token: &str, failure: &AccountFailure) -> (r: bool)
        ensures
            r == self@.heeds(token@, failure@),
    {
        match failure {
            AccountFailure::Unauthorized | AccountFailure::NeedsReauth => match &self.credentials {
                Some(credentials) => text::same(&credentials.access_token, token),
                None => true,
            },
            _ => true,
        }
    }
}

impl Accounts {
    /// Notes a failure of a request that was sent for the account `id` with an access token, and
    /// says whether the accounts changed and have to be saved.
    pub fn record_failure(&mut self, id: &str, model: &str, token: &str, failure: &AccountFailure)
        -> (changed: bool)
        ensures
            final(self)@ == old(self)@.after_failure(id@, model@, token@, failure@),
            changed == old(self)@.concerned(id@, token@, failure@),
    {
        let concerned = match self.accounts.get(id) {
            Some(account) => account.heeds(token, failure),
            None => false,
        };
        let concerned = concerned && match failure {
            AccountFailure::Transient | AccountFailure::Other => false,
            _ => true,
        };
        if !concerned {
            return false;
        }
        let ghost before = self.accounts@;
        match self.accounts.remove(id) {
            Some(removed) => {
                let mut account = removed;
                account.hinder(model, failure);
                proof {
                    models_of_changed(before, id@, account);
                }
                self.accounts.insert(id.to_owned(), account);
                true
            },
            None => false,
        }
    }
}

/// A failure never makes an account available, and never ends a limit earlier.
pub proof fn failures_only_hinder(
    account: AccountModel,
    failed: Seq<char>,
    failure: FailureModel,
    model: Seq<char>,
    now: u64,
)
    ensures
        account.hindered(failed, failure).available_at(model, now) ==> account.available_at(
            model,
            now,
        ),
        account.hindered(failed, failure).quota_until_ms >= account.quota_until_ms,
        account.hindered(failed, failure).unavailable_until_ms >= account.unavailable_until_ms,
{
    let after = account.hindered(failed, failure);
    if account.blocked_models.contains(model) {
        let i = account.blocked_models.index_of(model);
        assert(after.blocked_models[i] == model);
    }
}

/// After a failure that says something of the account, the account serves no request for the
/// model before the limit ends, and none at all where the failure states no end.
pub proof fn failed_account_is_unavailable(
    account: AccountModel,
    model: Seq<char>,
    failure: FailureModel,
    now: u64,
)
    requires
        match failure {
            FailureModel::RateLimit(until) => now < until,
            FailureModel::Quota(until) => now < until,
            FailureModel::Transient => false,
            FailureModel::Other => false,
            _ => true,
        },
    ensures
        !account.hindered(model, failure).available_at(model, now),
{
    if failure is Scope {
        let after = account.hindered(model, failure).blocked_models;
        if !account.blocked_models.contains(model) {
            assert(after[after.len() - 1] == model);
        }
    }
}

/// A missing permission blocks one model, and no other.
pub proof fn missing_permission_blocks_one_model(
    account: AccountModel,
    blocked: Seq<char>,
    scope: Option<Seq<char>>,
    model: Seq<char>,
    now: u64,
)
    requires
        model != blocked,
    ensures
        account.hindered(blocked, FailureModel::Scope(scope)).available_at(model, now)
            == account.available_at(model, now),
{
    let after = account.hindered(blocked, FailureModel::Scope(scope)).blocked_models;
    if after.contains(model) {
        let i = after.index_of(model);
        assert(account.blocked_models[i] == model);
    }
    if account.blocked_models.contains(model) {
        let i = account.blocked_models.index_of(model);
        assert(after[i] == model);
    }
}

/// A refused token that is no longer the account's own says nothing of the account.
pub proof fn stale_token_is_ignored(
    accounts: AccountsModel,
    id: Seq<char>,
    model: Seq<char>,
    token: Seq<char>,
    failure: FailureModel,
)
    requires
        failure is Unauthorized || failure is NeedsReauth,
        accounts.accounts.contains_key(id),
        accounts.accounts[id].credentials matches Some(credentials) && credentials.access_token
            != token,
    ensures
        accounts.after_failure(id, model, token, failure) == accounts,
{
}

/// A failure changes the account that it concerns, and no other.
pub proof fn failure_touches_one_account(
    accounts: AccountsModel,
    id: Seq<char>,
    model: Seq<char>,
    token: Seq<char>,
    failure: FailureModel,
    other: Seq<char>,
)
    requires
        other != id,
    ensures
        accounts.after_failure(id, model, token, failure).accounts.dom() == accounts.accounts.dom(),
        accounts.after_failure(id, model, token, failure).accounts[other]
            == accounts.accounts[other],
        accounts.after_failure(id, model, token, failure).selected == accounts.selected,
{
    assert(accounts.after_failure(id, model, token, failure).accounts.dom()
        =~= accounts.accounts.dom());
}

} // verus!
