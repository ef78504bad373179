//! The credentials of an account for a request, and their renewal.
use crate::accounts;
use crate::accounts::{AccountModel, AccountsModel};
use crate::credentials::{CodexCredentials, CredentialsModel};
use crate::failure::AccountFailure;
use crate::oauth::RefreshError;
use crate::state;
use crate::state::{Effects, State, StateModel};
use crate::text;
use crate::time;
use std::time::SystemTime;
use vstd::prelude::*;
use vstd::string::*;

verus! {

/// What is shown of an account whose tokens were renewed as those of another account.
pub const CHANGED_STATUS: &'static str = "Account changed during refresh. Sign in again";

pub const REMOVED_MESSAGE: &'static str = "Account was removed";

pub const CHANGED_MESSAGE: &'static str = "Account changed during token refresh";

pub const DIFFERENT_MESSAGE: &'static str = "Token refresh returned a different ChatGPT account";

/// How a renewal fails that takes too long: it may succeed when it is tried again.
pub fn refresh_timed_out() -> (error: RefreshError)
    ensures
        error matches RefreshError::Transient(message) && message@
            == "ChatGPT token refresh timed out"@,
{
    RefreshError::Transient("ChatGPT token refresh timed out".to_owned())
}

/// Where the credentials for a request come from.
pub enum CredentialsSource<'a, T> {
    /// There are none.
    Missing,
    /// From a renewal that is under way.
    Join(&'a T),
    /// They are at hand.
    Ready(CodexCredentials),
    /// They have to be renewed first.
    Renew(CodexCredentials),
}

/// Where the credentials come from, and what they are now.
#[verifier::ext_equal]
pub enum SourceModel<T> {
    Missing,
    Join(T),
    Ready(CredentialsModel),
    Renew(CredentialsModel),
}

impl<'a, T> View for CredentialsSource<'a, T> {
    type V = SourceModel<T>;

    open spec fn view(&self) -> SourceModel<T> {
        match *self {
            CredentialsSource::Missing => SourceModel::Missing,
            CredentialsSource::Join(task) => SourceModel::Join(*task),
            CredentialsSource::Ready(credentials) => SourceModel::Ready(credentials@),
            CredentialsSource::Renew(credentials) => SourceModel::Renew(credentials@),
        }
    }
}

impl AccountsModel {
    /// The credentials of the account `id`, unless it has to sign in again.
    pub open spec fn usable(self, id: Seq<char>) -> Option<CredentialsModel> {
        if self.accounts.contains_key(id) && !self.accounts[id].needs_reauth {
            self.accounts[id].credentials
        } else {
            None
        }
    }
}

/// The credentials that renewed ones make of those they replace: what the renewal leaves open
/// stays as it was.
pub open spec fn merged(renewed: CredentialsModel, used: CredentialsModel) -> CredentialsModel {
    CredentialsModel {
        account_id: if renewed.account_id is Some {
            renewed.account_id
        } else {
            used.account_id
        },
        email: if renewed.email is Some {
            renewed.email
        } else {
            used.email
        },
        scopes: if renewed.scopes.len() == 0 {
            used.scopes
        } else {
            renewed.scopes
        },
        ..renewed
    }
}

/// The renewed credentials name another account.
pub open spec fn strangers(renewed: CredentialsModel, used: CredentialsModel) -> bool {
    renewed.account_id is Some && used.account_id is Some && renewed.account_id != used.account_id
}

/// What a renewal comes to.
#[verifier::ext_equal]
pub enum RenewalModel {
    Renewed(CredentialsModel),
    Fatal(Seq<char>),
    Transient(Seq<char>),
}

/// What the token endpoint's answer comes to.
pub open spec fn renewal_model(result: Result<CodexCredentials, RefreshError>) -> RenewalModel {
    match result {
        Ok(renewed) => RenewalModel::Renewed(renewed@),
        Err(RefreshError::Fatal(message)) => RenewalModel::Fatal(message@),
        Err(RefreshError::Transient(message)) => RenewalModel::Transient(message@),
    }
}

impl<T> StateModel<T> {
    /// Where the credentials for a request come from at `now`, for the account `id` and after the
    /// service refused an access token.
    pub open spec fn source(self, id: Seq<char>, rejected: Option<Seq<char>>, now: u64) -> SourceModel<
        T,
    > {
        match self.accounts.usable(id) {
            None => SourceModel::Missing,
            Some(credentials) => if self.refresh_tasks.contains_key(id) {
                SourceModel::Join(self.refresh_tasks[id])
            } else if !credentials.expired_at(now) && rejected != Some(credentials.access_token) {
                SourceModel::Ready(credentials)
            } else {
                SourceModel::Renew(credentials)
            },
        }
    }

    /// The account still has the tokens that a renewal started from.
    pub open spec fn still_uses(self, id: Seq<char>, used: CredentialsModel) -> bool {
        &&& self.accounts.accounts.contains_key(id)
        &&& self.accounts.accounts[id].credentials matches Some(current)
        &&& current.refresh_token == used.refresh_token
        &&& current.access_token == used.access_token
    }

    /// The renewal of the account's tokens is over.
    pub open spec fn renewal_over(self, id: Seq<char>) -> StateModel<T> {
        StateModel { refresh_tasks: self.refresh_tasks.remove(id), ..self }
    }

    /// The state after a renewal of the tokens that the account `id` used.
    pub open spec fn after_renewal(
        self,
        id: Seq<char>,
        used: CredentialsModel,
        renewal: RenewalModel,
    ) -> StateModel<T> {
        let account = self.accounts.accounts[id];
        let over = self.renewal_over(id);
        if !self.still_uses(id, used) {
            self
        } else {
            match renewal {
                RenewalModel::Renewed(renewed) => if strangers(renewed, used) {
                    StateModel {
                        accounts: self.accounts.with(
                            id,
                            AccountModel {
                                needs_reauth: true,
                                status: CHANGED_STATUS@,
                                ..account
                            },
                        ),
                        ..over
                    }
                } else {
                    StateModel {
                        accounts: self.accounts.with(
                            id,
                            AccountModel { credentials: Some(merged(renewed, used)), ..account },
                        ),
                        ..over
                    }
                },
                RenewalModel::Fatal(_) => StateModel {
                    accounts: self.accounts.with(
                        id,
                        AccountModel {
                            needs_reauth: true,
                            status: accounts::REAUTH_STATUS@,
                            ..account
                        },
                    ),
                    last_auth_error: Some(state::SESSION_ERROR@),
                    ..over
                },
                RenewalModel::Transient(_) => over,
            }
        }
    }

    /// What those who wait for the renewal get.
    pub open spec fn renewal_result(
        self,
        id: Seq<char>,
        used: CredentialsModel,
        renewal: RenewalModel,
    ) -> Result<CredentialsModel, Seq<char>> {
        if !self.accounts.accounts.contains_key(id) {
            Err(REMOVED_MESSAGE@)
        } else if !self.still_uses(id, used) {
            Err(CHANGED_MESSAGE@)
        } else {
            match renewal {
                RenewalModel::Renewed(renewed) => if strangers(renewed, used) {
                    Err(DIFFERENT_MESSAGE@)
                } else {
                    Ok(merged(renewed, used))
                },
                RenewalModel::Fatal(message) => Err(message),
                RenewalModel::Transient(message) => Err(message),
            }
        }
    }

    /// What has to be done after the renewal.
    pub open spec fn renewal_effects(
        self,
        id: Seq<char>,
        used: CredentialsModel,
        renewal: RenewalModel,
    ) -> Effects {
        let changed = self.still_uses(id, used) && !(renewal is Transient);
        Effects {
            persist: changed,
            notify: changed && !(renewal matches RenewalModel::Renewed(renewed) && strangers(
                renewed,
                used,
            )),
            refresh_catalog: false,
        }
    }
}

/// What a result holds.
pub open spec fn result_model(result: Result<CodexCredentials, String>) -> Result<
    CredentialsModel,
    Seq<char>,
> {
    match result {
        Ok(credentials) => Ok(credentials@),
        Err(message) => Err(message@),
    }
}

fn belongs_to_other(renewed: &CodexCredentials, used: &CodexCredentials) -> (r: bool)
    ensures
        r == strangers(renewed@, used@),
{
    match (&renewed.account_id, &used.account_id) {
        (Some(new), Some(previous)) => !text::same(new, previous),
        _ => false,
    }
}

fn merge(renewed: CodexCredentials, used: &CodexCredentials) -> (r: CodexCredentials)
    ensures
        r@ == merged(renewed@, used@),
{
    let account_id = if renewed.account_id.is_some() {
        renewed.account_id
    } else {
        text::copy_optional(&used.account_id)
    };
    let email = if renewed.email.is_some() {
        renewed.email
    } else {
        text::copy_optional(&used.email)
    };
    let scopes = if renewed.scopes.len() == 0 {
        text::copy_list(&used.scopes)
    } else {
        renewed.scopes
    };
    CodexCredentials {
        access_token: renewed.access_token,
        refresh_token: renewed.refresh_token,
        expires_at_ms: renewed.expires_at_ms,
        account_id,
        email,
        scopes,
    }
}

fn same_tokens(current: &Option<CodexCredentials>, used: &CodexCredentials) -> (r: bool)
    ensures
        r == (current matches Some(current) && current@.refresh_token == used@.refresh_token
            && current@.access_token == used@.access_token),
{
    match current {
        Some(current) => text::same(&current.refresh_token, &used.refresh_token) && text::same(
            &current.access_token,
            &used.access_token,
        ),
        None => false,
    }
}

impl<T> State<T> {
    /// Where the credentials for a request come from at a time.
    pub fn credentials_source_at(&self, id: &str, rejected: Option<&str>, now: u64) -> (r:
        CredentialsSource<'_, T>)
        ensures
            r@ == self@.source(
                id@,
                rejected.deep_view(),
                now,
            ),
    {
        let credentials = match self.accounts.accounts.get(id) {
            Some(account) => if account.needs_reauth {
                return CredentialsSource::Missing;
            } else {
                match &account.credentials {
                    Some(credentials) => credentials,
                    None => return CredentialsSource::Missing,
                }
            },
            None => return CredentialsSource::Missing,
        };
        match self.refresh_tasks.get(id) {
            Some(task) => return CredentialsSource::Join(task),
            None => {},
        }
        let refused = match rejected {
            Some(token) => text::same(token, &credentials.access_token),
            None => false,
        };
        if !credentials.is_expired_at(now) && !refused {
            CredentialsSource::Ready(credentials.clone())
        } else {
            CredentialsSource::Renew(credentials.clone())
        }
    }

    /// Where the credentials for a request come from by the wall clock.
    pub fn credentials_source(&self, id: &str, rejected: Option<&str>) -> (r: CredentialsSource<
        '_,
        T,
    >)
        ensures
            exists|reading: SystemTime|
                r@ == self@.source(
                    id@,
                    rejected.deep_view(),
                    #[trigger] time::read_ms(reading),
                ),
            r@ is Missing == (self@.accounts.usable(id@) is None),
            r@ is Join == (self@.accounts.usable(id@) is Some && self@.refresh_tasks.contains_key(
                id@,
            )),
    {
        let now = time::now_ms();
        self.credentials_source_at(id, rejected, now)
    }

    /// Keeps the task of a renewal that was started.
    pub fn keep_refresh(&mut self, id: String, task: T)
        ensures
            final(self)@ == (StateModel {
                refresh_tasks: old(self)@.refresh_tasks.insert(id@, task),
                ..old(self)@
            }),
    {
        self.refresh_tasks.insert(id, task);
    }

    /// Takes in what the renewal of the tokens that the account `id` used came to.
    ///
    /// The result is for all who wait for the renewal.
    pub fn finish_refresh(
        &mut self,
        id: &str,
        used: &CodexCredentials,
        result: Result<CodexCredentials, RefreshError>,
    ) -> (r: (Result<CodexCredentials, String>, Effects))
        ensures
            final(self)@ == old(self)@.after_renewal(id@, used@, renewal_model(result)),
            result_model(r.0) == old(self)@.renewal_result(id@, used@, renewal_model(result)),
            r.1 == old(self)@.renewal_effects(id@, used@, renewal_model(result)),
    {
        let nothing = Effects { notify: false, persist: false, refresh_catalog: false };
        match self.accounts.accounts.get(id) {
            Some(account) => {
                if !same_tokens(&account.credentials, used) {
                    return (Err(CHANGED_MESSAGE.to_owned()), nothing);
                }
            },
            None => {
                return (Err(REMOVED_MESSAGE.to_owned()), nothing);
            },
        }
        self.refresh_tasks.remove(id);
        let renewed = match result {
            Ok(renewed) => renewed,
            Err(RefreshError::Fatal(message)) => {
                self.demand_sign_in(id, accounts::REAUTH_STATUS);
                self.last_auth_error = Some(state::SESSION_ERROR.to_owned());
                return (
                    Err(message),
                    Effects { notify: true, persist: true, refresh_catalog: false },
                );
            },
            Err(RefreshError::Transient(message)) => {
                return (Err(message), nothing);
            },
        };
        if belongs_to_other(&renewed, used) {
            self.demand_sign_in(id, CHANGED_STATUS);
            return (
                Err(DIFFERENT_MESSAGE.to_owned()),
                Effects { notify: false, persist: true, refresh_catalog: false },
            );
        }
        let fresh = merge(renewed, used);
        let ghost before = self.accounts.accounts@;
        match self.accounts.accounts.remove(id) {
            Some(removed) => {
                let mut account = removed;
                account.credentials = Some(fresh.clone());
                proof {
                    accounts::models_of_changed(before, id@, account);
                }
                self.accounts.accounts.insert(id.to_owned(), account);
            },
            None => {},
        }
        (Ok(fresh), Effects { notify: true, persist: true, refresh_catalog: false })
    }

    fn demand_sign_in(&mut self, id: &str, status: &str)
        requires
            old(self)@.accounts.accounts.contains_key(id@),
        ensures
            final(self)@ == (StateModel {
                accounts: old(self)@.accounts.with(
                    id@,
                    AccountModel {
                        needs_reauth: true,
                        status: status@,
                        ..old(self)@.accounts.accounts[id@]
                    },
                ),
                ..old(self)@
            }),
    {
        let ghost before = self.accounts.accounts@;
        match self.accounts.accounts.remove(id) {
            Some(removed) => {
                let mut account = removed;
                account.needs_reauth = true;
                account.status = status.to_owned();
                proof {
                    accounts::models_of_changed(before, id@, account);
                }
                self.accounts.accounts.insert(id.to_owned(), account);
            },
            None => {},
        }
    }

    /// Notes a failure of a request that was sent for the account `id` with an access token.
    pub fn record_account_failure(
        &mut self,
        id: &str,
        model: &str,
        token: &str,
        failure: &AccountFailure,
    ) -> (effects: Effects)
        ensures
            final(self)@ == (StateModel {
                accounts: old(self)@.accounts.after_failure(id@, model@, token@, failure@),
                ..old(self)@
            }),
            effects == (if old(self)@.accounts.concerned(id@, token@, failure@) {
                Effects { notify: true, persist: true, refresh_catalog: false }
            } else {
                state::no_effects()
            }),
    {
        let changed = self.accounts.record_failure(id, model, token, failure);
        Effects { notify: changed, persist: changed, refresh_catalog: false }
    }
}

/// What those who wait for a renewal get once the accounts are saved: a save that failed is the
/// error of the renewal.
pub fn settled(result: Result<CodexCredentials, String>, saved: Option<Result<(), String>>) -> (r:
    Result<CodexCredentials, String>)
    ensures
        r == (match saved {
            Some(Err(message)) => Err::<CodexCredentials, String>(message),
            _ => result,
        }),
{
    match saved {
        Some(Err(message)) => Err(message),
        _ => result,
    }
}

/// A renewal keeps what it leaves open: the account's own id, its e-mail address and its scopes.
pub proof fn renewal_keeps_identity(renewed: CredentialsModel, used: CredentialsModel)
    requires
        !strangers(renewed, used),
    ensures
        used.account_id is Some ==> merged(renewed, used).account_id == used.account_id,
        used.email is Some ==> merged(renewed, used).email is Some,
        used.scopes.len() > 0 ==> merged(renewed, used).scopes.len() > 0,
        merged(renewed, used).access_token == renewed.access_token,
        merged(renewed, used).refresh_token == renewed.refresh_token,
        merged(renewed, used).expires_at_ms == renewed.expires_at_ms,
{
}

/// A renewal for an account that was removed, or that signed in anew, changes nothing, and gives
/// nobody its tokens.
pub proof fn late_renewal_is_discarded<T>(
    before: StateModel<T>,
    id: Seq<char>,
    used: CredentialsModel,
    renewal: RenewalModel,
)
    requires
        !before.still_uses(id, used),
    ensures
        before.after_renewal(id, used, renewal) == before,
        before.renewal_result(id, used, renewal) is Err,
        before.renewal_effects(id, used, renewal) == state::no_effects(),
{
}

/// A renewal that was under way at a sign-out is discarded.
pub proof fn sign_out_discards_renewals<T>(
    before: StateModel<T>,
    id: Seq<char>,
    used: CredentialsModel,
    renewal: RenewalModel,
)
    ensures
        before.after_sign_out().after_renewal(id, used, renewal) == before.after_sign_out(),
        before.after_sign_out().renewal_result(id, used, renewal)
            == Err::<CredentialsModel, Seq<char>>(REMOVED_MESSAGE@),
{
}

/// While a renewal is under way, all who ask for the account's credentials wait for it.
pub proof fn renewals_are_shared<T>(
    before: StateModel<T>,
    id: Seq<char>,
    task: T,
    rejected: Option<Seq<char>>,
    now: u64,
)
    requires
        before.accounts.usable(id) is Some,
    ensures
        (StateModel { refresh_tasks: before.refresh_tasks.insert(id, task), ..before }).source(
            id,
            rejected,
            now,
        ) == SourceModel::Join(task),
{
}

/// A renewal changes the account it is for and its task, and no other account.
pub proof fn renewals_are_independent<T>(
    before: StateModel<T>,
    id: Seq<char>,
    used: CredentialsModel,
    renewal: RenewalModel,
    other: Seq<char>,
    rejected: Option<Seq<char>>,
    now: u64,
)
    requires
        other != id,
    ensures
        before.after_renewal(id, used, renewal).source(other, rejected, now) == before.source(
            other,
            rejected,
            now,
        ),
        before.after_renewal(id, used, renewal).accounts.accounts[other]
            == before.accounts.accounts[other],
        before.after_renewal(id, used, renewal).accounts.selected == before.accounts.selected,
        before.after_renewal(id, used, renewal).accounts.accounts.dom()
            == before.accounts.accounts.dom(),
{
    assert(before.after_renewal(id, used, renewal).accounts.accounts.dom()
        =~= before.accounts.accounts.dom());
}

/// After a renewal that failed for good the account has to sign in again; one that may still
/// succeed leaves its credentials as they were, and no error is shown.
pub proof fn failed_renewals<T>(
    before: StateModel<T>,
    id: Seq<char>,
    used: CredentialsModel,
    message: Seq<char>,
)
    requires
        before.still_uses(id, used),
    ensures
        ({
            let fatal = before.after_renewal(id, used, RenewalModel::Fatal(message));
            let transient = before.after_renewal(id, used, RenewalModel::Transient(message));
            &&& fatal.accounts.usable(id) is None
            &&& fatal.last_auth_error == Some(state::SESSION_ERROR@)
            &&& transient.accounts == before.accounts
            &&& transient.last_auth_error == before.last_auth_error
            &&& !fatal.refresh_tasks.contains_key(id)
            &&& !transient.refresh_tasks.contains_key(id)
        }),
{
}

/// Tokens of another account are never taken over.
pub proof fn other_accounts_tokens_are_refused<T>(
    before: StateModel<T>,
    id: Seq<char>,
    used: CredentialsModel,
    renewed: CredentialsModel,
)
    requires
        strangers(renewed, used),
        before.still_uses(id, used),
    ensures
        before.renewal_result(id, used, RenewalModel::Renewed(renewed)) is Err,
        before.after_renewal(id, used, RenewalModel::Renewed(renewed)).accounts.usable(id) is None,
        before.after_renewal(
            id,
            used,
            RenewalModel::Renewed(renewed),
        ).accounts.accounts[id].credentials == before.accounts.accounts[id].credentials,
{
}

/// After a renewal the new token is at hand, without another renewal, until it expires or is
/// refused in its turn.
pub proof fn renewed_credentials_are_ready<T>(
    before: StateModel<T>,
    id: Seq<char>,
    used: CredentialsModel,
    renewed: CredentialsModel,
    rejected: Option<Seq<char>>,
    now: u64,
)
    requires
        before.still_uses(id, used),
        before.accounts.usable(id) is Some,
        !strangers(renewed, used),
        !renewed.expired_at(now),
        rejected != Some(renewed.access_token),
    ensures
        before.after_renewal(id, used, RenewalModel::Renewed(renewed)).source(id, rejected, now)
            == SourceModel::<T>::Ready(merged(renewed, used)),
{
}

/// A renewal that changes the accounts has them saved.
pub proof fn renewed_accounts_are_saved<T>(
    before: StateModel<T>,
    id: Seq<char>,
    used: CredentialsModel,
    renewal: RenewalModel,
)
    requires
        before.after_renewal(id, used, renewal).accounts != before.accounts,
    ensures
        before.renewal_effects(id, used, renewal).persist,
{
}

} // verus!
