//! Which accounts a request is sent for, one after the other, until one of them answers it.
//!
//! [`Failover`] decides; the host sends, renews tokens, waits and saves, and reports what came of
//! it.
use crate::accounts;
use crate::accounts::{AccountSwitchPolicy, Accounts, AccountsModel};
use crate::credentials::{CodexCredentials, CredentialsModel};
use crate::failure;
use crate::failure::{AccountFailure, FailureModel, RequestError};
use crate::id_map;
use crate::text;
use crate::time;
use std::time::SystemTime;
use vstd::prelude::*;
use vstd::string::*;

verus! {

pub const NO_ACCOUNT_MESSAGE: &'static str =
    "No eligible ChatGPT account. Check account status in Settings > AI > LLM Providers.";

/// Why a request got no answer.
#[derive(Debug)]
pub enum CompletionError {
    /// Nobody is signed in.
    NoApiKey,
    /// The service refused the request, or could not be reached.
    Request(RequestError),
    /// Something else happened.
    Message(String),
}

/// What an error holds.
#[verifier::ext_equal]
pub enum ErrorModel {
    NoApiKey,
    Request(RequestError),
    Message(Seq<char>),
}

impl View for CompletionError {
    type V = ErrorModel;

    open spec fn view(&self) -> ErrorModel {
        match *self {
            CompletionError::NoApiKey => ErrorModel::NoApiKey,
            CompletionError::Request(error) => ErrorModel::Request(error),
            CompletionError::Message(message) => ErrorModel::Message(message@),
        }
    }
}

/// How far a request has come.
#[derive(Debug)]
pub enum Phase {
    /// No account was tried.
    Start,
    /// The credentials of an account are awaited.
    Authenticating { id: String },
    /// The request was sent, perhaps after its token was renewed or after a first failure.
    Sending { id: String, credentials: CodexCredentials, refreshed: bool, retried: bool },
    /// The request is sent again after a while.
    Waiting { id: String, credentials: CodexCredentials, refreshed: bool },
    /// The refused token is renewed.
    Refreshing { id: String, retried: bool },
    /// The account's failure is recorded, after which no other account is tried if it says so.
    Recording { error: RequestError, stop: bool },
    /// The request was answered, or has failed.
    Over,
}

/// What a phase holds.
#[verifier::ext_equal]
pub enum PhaseModel {
    Start,
    Authenticating { id: Seq<char> },
    Sending { id: Seq<char>, credentials: CredentialsModel, refreshed: bool, retried: bool },
    Waiting { id: Seq<char>, credentials: CredentialsModel, refreshed: bool },
    Refreshing { id: Seq<char>, retried: bool },
    Recording { error: RequestError, stop: bool },
    Over,
}

impl View for Phase {
    type V = PhaseModel;

    open spec fn view(&self) -> PhaseModel {
        match *self {
            Phase::Start => PhaseModel::Start,
            Phase::Authenticating { id } => PhaseModel::Authenticating { id: id@ },
            Phase::Sending { id, credentials, refreshed, retried } => PhaseModel::Sending {
                id: id@,
                credentials: credentials@,
                refreshed,
                retried,
            },
            Phase::Waiting { id, credentials, refreshed } => PhaseModel::Waiting {
                id: id@,
                credentials: credentials@,
                refreshed,
            },
            Phase::Refreshing { id, retried } => PhaseModel::Refreshing { id: id@, retried },
            Phase::Recording { error, stop } => PhaseModel::Recording { error, stop },
            Phase::Over => PhaseModel::Over,
        }
    }
}

/// What the host has to do.
#[derive(Debug)]
pub enum FailoverAction {
    /// Get the credentials of an account, and report them.
    Authenticate { id: String },
    /// Send the request, and report the answer.
    Send { id: String, credentials: CodexCredentials },
    /// Get the account's credentials after its token was refused, and report them.
    Refresh { id: String, rejected: String },
    /// Wait a second, and report that.
    Wait,
    /// Record the failure of an account and save the accounts, and report that.
    Record { id: String, token: String, failure: AccountFailure },
    /// Hand out the answer that came for the account and its token.
    Deliver { id: String, token: String },
    /// Give up.
    Fail(CompletionError),
}

/// What an action holds.
#[verifier::ext_equal]
pub enum ActionModel {
    Authenticate { id: Seq<char> },
    Send { id: Seq<char>, credentials: CredentialsModel },
    Refresh { id: Seq<char>, rejected: Seq<char> },
    Wait,
    Record { id: Seq<char>, token: Seq<char>, failure: FailureModel },
    Deliver { id: Seq<char>, token: Seq<char> },
    Fail(ErrorModel),
}

impl View for FailoverAction {
    type V = ActionModel;

    open spec fn view(&self) -> ActionModel {
        match *self {
            FailoverAction::Authenticate { id } => ActionModel::Authenticate { id: id@ },
            FailoverAction::Send { id, credentials } => ActionModel::Send {
                id: id@,
                credentials: credentials@,
            },
            FailoverAction::Refresh { id, rejected } => ActionModel::Refresh {
                id: id@,
                rejected: rejected@,
            },
            FailoverAction::Wait => ActionModel::Wait,
            FailoverAction::Record { id, token, failure } => ActionModel::Record {
                id: id@,
                token: token@,
                failure: failure@,
            },
            FailoverAction::Deliver { id, token } => ActionModel::Deliver { id: id@, token: token@ },
            FailoverAction::Fail(error) => ActionModel::Fail(error@),
        }
    }
}

/// What happened.
#[derive(Debug)]
pub enum FailoverEvent {
    /// The request is there.
    Begin,
    /// The credentials that were awaited.
    Credentials(Result<CodexCredentials, CompletionError>),
    /// An answer began to come.
    Answered,
    /// The request failed, which says something of the account.
    Failed { error: RequestError, failure: AccountFailure },
    /// The wait is over.
    Waited,
    /// The failure is recorded and saved.
    Recorded(Result<(), CompletionError>),
}

/// What an event holds.
#[verifier::ext_equal]
pub enum EventModel {
    Begin,
    Credentials(Result<CredentialsModel, ErrorModel>),
    Answered,
    Failed { error: RequestError, failure: FailureModel },
    Waited,
    Recorded(Result<(), ErrorModel>),
}

impl View for FailoverEvent {
    type V = EventModel;

    open spec fn view(&self) -> EventModel {
        match *self {
            FailoverEvent::Begin => EventModel::Begin,
            FailoverEvent::Credentials(Ok(credentials)) => EventModel::Credentials(
                Ok(credentials@),
            ),
            FailoverEvent::Credentials(Err(error)) => EventModel::Credentials(Err(error@)),
            FailoverEvent::Answered => EventModel::Answered,
            FailoverEvent::Failed { error, failure } => EventModel::Failed {
                error,
                failure: failure@,
            },
            FailoverEvent::Waited => EventModel::Waited,
            FailoverEvent::Recorded(Ok(_)) => EventModel::Recorded(Ok(())),
            FailoverEvent::Recorded(Err(error)) => EventModel::Recorded(Err(error@)),
        }
    }
}

/// The failure of a request at a time, with what it says of the account.
pub fn failed_at(error: RequestError, now: u64) -> (event: FailoverEvent)
    ensures
        event@ == (EventModel::Failed {
            error,
            failure: failure::failure_of(error, failure::body_payload(error), now),
        }),
{
    let failure = failure::classify_failure_at(&error, now);
    FailoverEvent::Failed { error, failure }
}

/// The failure of a request by the wall clock.
pub fn failed(error: RequestError) -> (event: FailoverEvent)
    ensures
        exists|reading: SystemTime|
            event@ == (EventModel::Failed {
                error,
                failure: failure::failure_of(
                    error,
                    failure::body_payload(error),
                    #[trigger] time::read_ms(reading),
                ),
            }),
{
    let now = time::now_ms();
    failed_at(error, now)
}

/// A request on its way through the accounts.
#[derive(Debug)]
pub struct Failover {
    /// The accounts that are still to be tried, in order.
    pub candidates: Vec<String>,
    pub policy: AccountSwitchPolicy,
    pub model: String,
    pub last_error: Option<CompletionError>,
    pub required_scope: Option<String>,
    pub phase: Phase,
}

/// What a request on its way holds.
#[verifier::ext_equal]
pub struct FailoverModel {
    pub candidates: Seq<Seq<char>>,
    pub policy: AccountSwitchPolicy,
    pub model: Seq<char>,
    pub last_error: Option<ErrorModel>,
    pub required_scope: Option<Seq<char>>,
    pub phase: PhaseModel,
}

impl View for Failover {
    type V = FailoverModel;

    open spec fn view(&self) -> FailoverModel {
        FailoverModel {
            candidates: self.candidates.deep_view(),
            policy: self.policy,
            model: self.model@,
            last_error: match self.last_error {
                Some(error) => Some(error@),
                None => None,
            },
            required_scope: self.required_scope.deep_view(),
            phase: self.phase@,
        }
    }
}

/// Those of the ids that are not `preferred`.
pub open spec fn others(order: Seq<Seq<char>>, preferred: Seq<char>) -> Seq<Seq<char>>
    decreases order.len(),
{
    if order.len() == 0 {
        Seq::empty()
    } else {
        let rest = others(order.drop_last(), preferred);
        if order.last() == preferred {
            rest
        } else {
            rest.push(order.last())
        }
    }
}

/// The account that a request asks for, else the selected one.
pub open spec fn preference(accounts: AccountsModel, preferred: Option<Seq<char>>) -> Seq<char> {
    match preferred {
        Some(id) => id,
        None => accounts.selected,
    }
}

/// The account is granted every scope that is required.
pub open spec fn grants(account: CredentialsModel, scope: Seq<char>) -> bool {
    forall|i: int|
        0 <= i < text::words(scope).len() ==> account.scopes.contains(
            #[trigger] text::words(scope)[i],
        )
}

/// A request for the model can be sent for the account at `now`.
pub open spec fn eligible(
    accounts: AccountsModel,
    id: Seq<char>,
    model: Seq<char>,
    scope: Option<Seq<char>>,
    now: u64,
) -> bool {
    &&& accounts.accounts.contains_key(id)
    &&& accounts.accounts[id].available_at(model, now)
    &&& scope is Some ==> grants(accounts.accounts[id].credentials->0, scope->0)
}

/// The first of the candidates for which the request can be sent, and those after it.
pub open spec fn chosen(
    candidates: Seq<Seq<char>>,
    accounts: AccountsModel,
    model: Seq<char>,
    scope: Option<Seq<char>>,
    now: u64,
) -> Option<(Seq<char>, Seq<Seq<char>>)>
    decreases candidates.len(),
{
    if candidates.len() == 0 {
        None
    } else if eligible(accounts, candidates[0], model, scope, now) {
        Some((candidates[0], candidates.skip(1)))
    } else {
        chosen(candidates.skip(1), accounts, model, scope, now)
    }
}

/// After the failure another account may be tried.
pub open spec fn passes_on(failure: FailureModel) -> bool {
    match failure {
        FailureModel::Other => false,
        FailureModel::Scope(scope) => scope is Some,
        _ => true,
    }
}

impl FailoverModel {
    /// A request that was not yet sent: it tries the preferred account first, and then, if the
    /// policy allows it, the others in the order of their ids.
    pub open spec fn initial(
        accounts: AccountsModel,
        policy: AccountSwitchPolicy,
        preferred: Option<Seq<char>>,
        model: Seq<char>,
    ) -> FailoverModel {
        let first = preference(accounts, preferred);
        FailoverModel {
            candidates: if policy == AccountSwitchPolicy::OnError {
                seq![first] + others(accounts.order(), first)
            } else {
                seq![first]
            },
            policy,
            model,
            last_error: None,
            required_scope: None,
            phase: PhaseModel::Start,
        }
    }

    /// The request has failed for the reason of its last error.
    pub open spec fn exhausted(self) -> (FailoverModel, ActionModel) {
        (
            FailoverModel {
                candidates: Seq::empty(),
                last_error: None,
                phase: PhaseModel::Over,
                ..self
            },
            ActionModel::Fail(
                match self.last_error {
                    Some(error) => error,
                    None => ErrorModel::Message(NO_ACCOUNT_MESSAGE@),
                },
            ),
        )
    }

    /// The next account is tried.
    pub open spec fn advance(self, accounts: AccountsModel, now: u64) -> (
        FailoverModel,
        ActionModel,
    ) {
        match chosen(self.candidates, accounts, self.model, self.required_scope, now) {
            Some((id, rest)) => (
                FailoverModel {
                    candidates: rest,
                    phase: PhaseModel::Authenticating { id },
                    ..self
                },
                ActionModel::Authenticate { id },
            ),
            None => self.exhausted(),
        }
    }

    /// The request is sent.
    pub open spec fn send(
        self,
        id: Seq<char>,
        credentials: CredentialsModel,
        refreshed: bool,
        retried: bool,
    ) -> (FailoverModel, ActionModel) {
        (
            FailoverModel {
                phase: PhaseModel::Sending { id, credentials, refreshed, retried },
                ..self
            },
            ActionModel::Send { id, credentials },
        )
    }

    /// The request failed: a refused token is renewed once, a failure that may pass is waited for
    /// once, and all else is recorded.
    pub open spec fn fail(
        self,
        id: Seq<char>,
        credentials: CredentialsModel,
        refreshed: bool,
        retried: bool,
        error: RequestError,
        failure: FailureModel,
    ) -> (FailoverModel, ActionModel) {
        if failure is Unauthorized && !refreshed {
            (
                FailoverModel { phase: PhaseModel::Refreshing { id, retried }, ..self },
                ActionModel::Refresh { id, rejected: credentials.access_token },
            )
        } else if failure is Transient && !retried {
            (
                FailoverModel { phase: PhaseModel::Waiting { id, credentials, refreshed }, ..self },
                ActionModel::Wait,
            )
        } else {
            (
                FailoverModel {
                    required_scope: match failure {
                        FailureModel::Scope(scope) => scope,
                        _ => self.required_scope,
                    },
                    phase: PhaseModel::Recording {
                        error,
                        stop: !passes_on(failure) || self.policy == AccountSwitchPolicy::Manual,
                    },
                    ..self
                },
                ActionModel::Record { id, token: credentials.access_token, failure },
            )
        }
    }

    /// What comes after an event, with the accounts as they are at `now`.
    ///
    /// An event that the phase does not wait for ends the request.
    pub open spec fn next(self, event: EventModel, accounts: AccountsModel, now: u64) -> (
        FailoverModel,
        ActionModel,
    ) {
        match (self.phase, event) {
            (PhaseModel::Start, EventModel::Begin) => self.advance(accounts, now),
            (
                PhaseModel::Authenticating { id },
                EventModel::Credentials(Ok(credentials)),
            ) => self.send(id, credentials, false, false),
            (PhaseModel::Authenticating { .. }, EventModel::Credentials(Err(error))) => (
            FailoverModel { last_error: Some(error), ..self }).advance(accounts, now),
            (PhaseModel::Sending { id, credentials, .. }, EventModel::Answered) => (
                FailoverModel { phase: PhaseModel::Over, ..self },
                ActionModel::Deliver { id, token: credentials.access_token },
            ),
            (
                PhaseModel::Sending { id, credentials, refreshed, retried },
                EventModel::Failed { error, failure },
            ) => self.fail(id, credentials, refreshed, retried, error, failure),
            (
                PhaseModel::Waiting { id, credentials, refreshed },
                EventModel::Waited,
            ) => self.send(id, credentials, refreshed, true),
            (
                PhaseModel::Refreshing { id, retried },
                EventModel::Credentials(Ok(credentials)),
            ) => self.send(id, credentials, true, retried),
            (PhaseModel::Refreshing { .. }, EventModel::Credentials(Err(error))) => (
            FailoverModel { last_error: Some(error), ..self }).advance(accounts, now),
            (PhaseModel::Recording { error, stop }, EventModel::Recorded(Ok(_))) => if stop {
                (
                    FailoverModel { phase: PhaseModel::Over, ..self },
                    ActionModel::Fail(ErrorModel::Request(error)),
                )
            } else {
                (FailoverModel { last_error: Some(ErrorModel::Request(error)), ..self }).advance(
                    accounts,
                    now,
                )
            },
            (PhaseModel::Recording { .. }, EventModel::Recorded(Err(error))) => (
                FailoverModel { phase: PhaseModel::Over, ..self },
                ActionModel::Fail(error),
            ),
            _ => self.exhausted(),
        }
    }
}

fn all_granted(granted: &Vec<String>, scope: &str) -> (r: bool)
    ensures
        r == (forall|i: int|
            0 <= i < text::words(scope@).len() ==> granted.deep_view().contains(
                #[trigger] text::words(scope@)[i],
            )),
{
    let required = text::words_of(scope);
    let ghost words = text::words(scope@);
    let mut i: usize = 0;
    while i < required.len()
        invariant
            words == required.deep_view(),
            words == text::words(scope@),
            i <= required@.len(),
            forall|k: int| 0 <= k < i ==> granted.deep_view().contains(#[trigger] words[k]),
        decreases required@.len() - i,
    {
        assert(words[i as int] == required@[i as int]@);
        if !text::listed(granted, &required[i]) {
            return false;
        }
        i += 1;
    }
    true
}

/// Whether a request for a model can be sent for an account at a time.
pub fn is_eligible(accounts: &Accounts, id: &str, model: &str, scope: &Option<String>, now: u64)
    -> (r: bool)
    ensures
        r == eligible(accounts@, id@, model@, scope.deep_view(), now),
{
    match accounts.accounts.get(id) {
        Some(account) => {
            if !account.available_at(model, now) {
                return false;
            }
            match scope {
                Some(scope) => match &account.credentials {
                    Some(credentials) => all_granted(&credentials.scopes, scope),
                    None => false,
                },
                None => true,
            }
        },
        None => false,
    }
}

impl Failover {
    /// A request for a model that was not yet sent.
    pub fn new(
        accounts: &Accounts,
        policy: AccountSwitchPolicy,
        preferred: Option<&str>,
        model: &str,
    ) -> (r: Failover)
        ensures
            r@ == FailoverModel::initial(accounts@, policy, preferred.deep_view(), model@),
    {
        let first: String = match preferred {
            Some(id) => id.to_owned(),
            None => accounts.selected.clone(),
        };
        let mut candidates: Vec<String> = Vec::new();
        candidates.push(first.clone());
        let ghost start = seq![first@];
        assert(candidates.deep_view() =~= start);
        if policy == AccountSwitchPolicy::OnError {
            let count = accounts.accounts.len();
            let ghost order = accounts@.order();
            assert(accounts@.accounts.dom() =~= accounts.accounts@.dom());
            let mut i: usize = 0;
            assert(candidates.deep_view() =~= start + others(order.take(0), first@));
            while i < count
                invariant
                    order == id_map::key_order(accounts.accounts@.dom()),
                    count == order.len(),
                    i <= count,
                    candidates.deep_view() == start + others(order.take(i as int), first@),
                decreases count - i,
            {
                proof {
                    id_map::take_next(order, i as int);
                }
                let id = accounts.accounts.id_at(i);
                if !text::same(id, &first) {
                    let ghost before = candidates.deep_view();
                    candidates.push(id.clone());
                    assert(candidates.deep_view() =~= before.push(id@));
                    assert(candidates.deep_view() =~= start + others(order.take(i + 1), first@));
                }
                i += 1;
            }
            assert(order.take(i as int) =~= order);
        }
        Failover {
            candidates,
            policy,
            model: model.to_owned(),
            last_error: None,
            required_scope: None,
            phase: Phase::Start,
        }
    }

    fn exhaust(&mut self) -> (action: FailoverAction)
        ensures
            (final(self)@, action@) == old(self)@.exhausted(),
    {
        self.candidates = Vec::new();
        assert(self.candidates.deep_view() =~= Seq::<Seq<char>>::empty());
        self.phase = Phase::Over;
        match self.last_error.take() {
            Some(error) => FailoverAction::Fail(error),
            None => FailoverAction::Fail(CompletionError::Message(NO_ACCOUNT_MESSAGE.to_owned())),
        }
    }

    fn advance(&mut self, accounts: &Accounts, now: u64) -> (action: FailoverAction)
        ensures
            (final(self)@, action@) == old(self)@.advance(accounts@, now),
    {
        let ghost all = self@.candidates;
        let ghost before = self@;
        while self.candidates.len() > 0
            invariant
                self@ == (FailoverModel { candidates: self@.candidates, ..before }),
                chosen(all, accounts@, before.model, before.required_scope, now) == chosen(
                    self@.candidates,
                    accounts@,
                    before.model,
                    before.required_scope,
                    now,
                ),
                before.candidates == all,
                before == old(self)@,
            decreases self.candidates@.len(),
        {
            let ghost candidates = self.candidates.deep_view();
            let id = self.candidates.remove(0);
            assert(id@ == candidates[0]);
            assert(self.candidates.deep_view() =~= candidates.skip(1));
            if is_eligible(accounts, &id, &self.model, &self.required_scope, now) {
                self.phase = Phase::Authenticating { id: id.clone() };
                return FailoverAction::Authenticate { id };
            }
        }
        assert(self@.candidates =~= Seq::<Seq<char>>::empty());
        self.exhaust()
    }

    fn send(
        &mut self,
        id: String,
        credentials: CodexCredentials,
        refreshed: bool,
        retried: bool,
    ) -> (action: FailoverAction)
        ensures
            (final(self)@, action@) == old(self)@.send(id@, credentials@, refreshed, retried),
    {
        self.phase = Phase::Sending {
            id: id.clone(),
            credentials: credentials.clone(),
            refreshed,
            retried,
        };
        FailoverAction::Send { id, credentials }
    }

    fn fail(
        &mut self,
        id: String,
        credentials: CodexCredentials,
        refreshed: bool,
        retried: bool,
        error: RequestError,
        failure: AccountFailure,
    ) -> (action: FailoverAction)
        ensures
            (final(self)@, action@) == old(self)@.fail(
                id@,
                credentials@,
                refreshed,
                retried,
                error,
                failure@,
            ),
    {
        match &failure {
            AccountFailure::Unauthorized => {
                if !refreshed {
                    self.phase = Phase::Refreshing { id: id.clone(), retried };
                    return FailoverAction::Refresh { id, rejected: credentials.access_token };
                }
            },
            AccountFailure::Transient => {
                if !retried {
                    self.phase = Phase::Waiting { id, credentials, refreshed };
                    return FailoverAction::Wait;
                }
            },
            _ => {},
        }
        let can_failover = match &failure {
            AccountFailure::Other => false,
            AccountFailure::Scope(scope) => {
                self.required_scope = text::copy_optional(scope);
                scope.is_some()
            },
            _ => true,
        };
        self.phase = Phase::Recording {
            error,
            stop: !can_failover || self.policy == AccountSwitchPolicy::Manual,
        };
        FailoverAction::Record { id, token: credentials.access_token, failure }
    }

    /// Takes in what happened, with the accounts as they are at a time, and says what is to be
    /// done.
    ///
    /// An event that the phase does not wait for ends the request.
    pub fn step_at(&mut self, event: FailoverEvent, accounts: &Accounts, now: u64) -> (action:
        FailoverAction)
        ensures
            (final(self)@, action@) == old(self)@.next(event@, accounts@, now),
    {
        let mut phase = Phase::Over;
        core::mem::swap(&mut phase, &mut self.phase);
        match (phase, event) {
            (Phase::Start, FailoverEvent::Begin) => self.advance(accounts, now),
            (Phase::Authenticating { id }, FailoverEvent::Credentials(Ok(credentials))) => {
                self.send(id, credentials, false, false)
            },
            (Phase::Authenticating { .. }, FailoverEvent::Credentials(Err(error))) => {
                self.last_error = Some(error);
                self.advance(accounts, now)
            },
            (Phase::Sending { id, credentials, .. }, FailoverEvent::Answered) => {
                FailoverAction::Deliver { id, token: credentials.access_token }
            },
            (
                Phase::Sending { id, credentials, refreshed, retried },
                FailoverEvent::Failed { error, failure },
            ) => self.fail(id, credentials, refreshed, retried, error, failure),
            (Phase::Waiting { id, credentials, refreshed }, FailoverEvent::Waited) => self.send(
                id,
                credentials,
                refreshed,
                true,
            ),
            (Phase::Refreshing { id, retried }, FailoverEvent::Credentials(Ok(credentials))) => {
                self.send(id, credentials, true, retried)
            },
            (Phase::Refreshing { .. }, FailoverEvent::Credentials(Err(error))) => {
                self.last_error = Some(error);
                self.advance(accounts, now)
            },
            (Phase::Recording { error, stop }, FailoverEvent::Recorded(Ok(_))) => {
                if stop {
                    FailoverAction::Fail(CompletionError::Request(error))
                } else {
                    self.last_error = Some(CompletionError::Request(error));
                    self.advance(accounts, now)
                }
            },
            (Phase::Recording { .. }, FailoverEvent::Recorded(Err(error))) => {
                FailoverAction::Fail(error)
            },
            _ => self.exhaust(),
        }
    }

    /// Takes in what happened, by the wall clock.
    pub fn step(&mut self, event: FailoverEvent, accounts: &Accounts) -> (action: FailoverAction)
        ensures
            exists|reading: SystemTime|
                (final(self)@, action@) == old(self)@.next(
                    event@,
                    accounts@,
                    #[trigger] time::read_ms(reading),
                ),
    {
        let now = time::now_ms();
        self.step_at(event, accounts, now)
    }
}

impl FailoverModel {
    /// The account that is being tried.
    pub open spec fn current(self) -> Option<Seq<char>> {
        match self.phase {
            PhaseModel::Authenticating { id } => Some(id),
            PhaseModel::Sending { id, .. } => Some(id),
            PhaseModel::Waiting { id, .. } => Some(id),
            PhaseModel::Refreshing { id, .. } => Some(id),
            _ => None,
        }
    }

    /// No account is tried twice.
    pub open spec fn orderly(self) -> bool {
        &&& self.candidates.no_duplicates()
        &&& self.current() matches Some(id) ==> !self.candidates.contains(id)
    }

    /// How often the request can still be sent for the account that is being tried.
    pub open spec fn sends_left(self) -> nat {
        match self.phase {
            PhaseModel::Authenticating { .. } => 3,
            PhaseModel::Sending { refreshed, retried, .. } => unused(refreshed) + unused(retried),
            PhaseModel::Waiting { refreshed, .. } => 1 + unused(refreshed),
            PhaseModel::Refreshing { retried, .. } => 1 + unused(retried),
            _ => 0,
        }
    }

    /// How often the request can still be sent for an account.
    pub open spec fn allowance(self, id: Seq<char>) -> nat {
        let now = if self.current() == Some(id) {
            self.sends_left()
        } else {
            0
        };
        let later: nat = if self.candidates.contains(id) {
            3
        } else {
            0
        };
        now + later
    }

    /// How much can still happen to the request.
    pub open spec fn budget(self) -> nat {
        let rest = match self.phase {
            PhaseModel::Start => 1,
            PhaseModel::Authenticating { .. } => 11,
            PhaseModel::Sending { refreshed, retried, .. } => 2 + 4 * unused(refreshed) + 4
                * unused(retried),
            PhaseModel::Waiting { refreshed, .. } => 5 + 4 * unused(refreshed),
            PhaseModel::Refreshing { retried, .. } => 5 + 4 * unused(retried),
            PhaseModel::Recording { .. } => 1,
            PhaseModel::Over => 0,
        };
        12 * self.candidates.len() + rest
    }

    /// What the host is told to do by a row of events, each with the accounts and the time.
    pub open spec fn actions(self, inputs: Seq<(EventModel, AccountsModel, u64)>) -> Seq<ActionModel>
        decreases inputs.len(),
    {
        if inputs.len() == 0 {
            Seq::empty()
        } else {
            let (after, action) = self.next(inputs[0].0, inputs[0].1, inputs[0].2);
            seq![action] + after.actions(inputs.skip(1))
        }
    }
}

/// One for a chance that was not yet taken.
pub open spec fn unused(taken: bool) -> nat {
    if taken {
        0
    } else {
        1
    }
}

/// How many of the actions send the request for an account.
pub open spec fn sends(actions: Seq<ActionModel>, id: Seq<char>) -> nat
    decreases actions.len(),
{
    if actions.len() == 0 {
        0
    } else {
        let first: nat = if actions[0] matches ActionModel::Send { id: to, .. } && to == id {
            1
        } else {
            0
        };
        first + sends(actions.skip(1), id)
    }
}

proof fn lemma_others(order: Seq<Seq<char>>, preferred: Seq<char>)
    requires
        order.no_duplicates(),
    ensures
        others(order, preferred).no_duplicates(),
        forall|id: Seq<char>| #[trigger]
            others(order, preferred).contains(id) <==> order.contains(id) && id != preferred,
    decreases order.len(),
{
    if order.len() > 0 {
        let shorter = order.drop_last();
        let last = order.last();
        lemma_others(shorter, preferred);
        assert(!shorter.contains(last));
        let rest = others(shorter, preferred);
        let all = others(order, preferred);
        assert forall|id: Seq<char>| #[trigger] order.contains(id) <==> shorter.contains(id) || id
            == last by {
            if shorter.contains(id) {
                assert(order[shorter.index_of(id)] == id);
            }
            if id == last {
                assert(order[order.len() - 1] == id);
            }
            if order.contains(id) && id != last {
                assert(shorter[order.index_of(id)] == id);
            }
        }
        assert forall|id: Seq<char>| #[trigger] all.contains(id) <==> order.contains(id) && id
            != preferred by {
            if last != preferred {
                if rest.contains(id) {
                    assert(all[rest.index_of(id)] == id);
                }
                if id == last {
                    assert(all[all.len() - 1] == id);
                }
                if all.contains(id) && id != last {
                    assert(rest[all.index_of(id)] == id);
                }
            }
        }
        if last != preferred {
            assert(!rest.contains(last));
        }
    } else {
        assert(others(order, preferred) =~= Seq::<Seq<char>>::empty());
    }
}

proof fn lemma_order_has_no_duplicates(accounts: AccountsModel)
    requires
        accounts.accounts.dom().finite(),
    ensures
        accounts.order().no_duplicates(),
        forall|id: Seq<char>| #[trigger]
            accounts.order().contains(id) <==> accounts.accounts.contains_key(id),
{
    id_map::key_order_exists(accounts.accounts.dom());
    let order = accounts.order();
    assert forall|i: int, j: int| 0 <= i < order.len() && 0 <= j < order.len() && i != j implies order[i]
        != order[j] by {
        text::order_is_irreflexive(order[i]);
        if i < j {
            assert(text::precedes(order[i], order[j]));
        } else {
            assert(text::precedes(order[j], order[i]));
        }
    }
    assert forall|id: Seq<char>| #[trigger]
        order.contains(id) <==> accounts.accounts.contains_key(id) by {
        assert(accounts.accounts.dom().contains(id) <==> order.contains(id));
    }
}

/// A request tries the preferred account first; under the policy to switch it tries each of the
/// others once, and by hand none of them.
pub proof fn every_account_is_tried_once(
    accounts: AccountsModel,
    policy: AccountSwitchPolicy,
    preferred: Option<Seq<char>>,
    model: Seq<char>,
)
    requires
        accounts.accounts.dom().finite(),
    ensures
        ({
            let start = FailoverModel::initial(accounts, policy, preferred, model);
            let first = preference(accounts, preferred);
            &&& start.orderly()
            &&& start.candidates[0] == first
            &&& policy == AccountSwitchPolicy::Manual ==> start.candidates == seq![first]
            &&& policy == AccountSwitchPolicy::OnError ==> forall|id: Seq<char>| #[trigger]
                start.candidates.contains(id) <==> id == first || accounts.accounts.contains_key(id)
        }),
{
    let first = preference(accounts, preferred);
    let start = FailoverModel::initial(accounts, policy, preferred, model);
    lemma_order_has_no_duplicates(accounts);
    lemma_others(accounts.order(), first);
    let rest = others(accounts.order(), first);
    if policy == AccountSwitchPolicy::OnError {
        let all = start.candidates;
        assert(all =~= seq![first] + rest);
        assert(!rest.contains(first));
        assert forall|i: int, j: int| 0 <= i < all.len() && 0 <= j < all.len() && i != j implies all[i]
            != all[j] by {
            if i == 0 {
                assert(all[j] == rest[j - 1]);
                assert(rest.contains(rest[j - 1]));
            } else if j == 0 {
                assert(all[i] == rest[i - 1]);
                assert(rest.contains(rest[i - 1]));
            } else {
                assert(all[i] == rest[i - 1] && all[j] == rest[j - 1]);
            }
        }
        assert forall|id: Seq<char>| #[trigger] all.contains(id) <==> id == first
            || accounts.accounts.contains_key(id) by {
            if id == first {
                assert(all[0] == id);
            } else {
                if all.contains(id) {
                    let k = all.index_of(id);
                    assert(rest[k - 1] == id);
                    assert(rest.contains(id));
                }
                if accounts.accounts.contains_key(id) {
                    assert(accounts.order().contains(id));
                    assert(rest.contains(id));
                    assert(all[rest.index_of(id) + 1] == id);
                }
            }
        }
    }
}

/// Where the preferred account can serve the request, it is the one that is tried.
pub proof fn preferred_account_comes_first(
    accounts: AccountsModel,
    policy: AccountSwitchPolicy,
    preferred: Option<Seq<char>>,
    model: Seq<char>,
    now: u64,
)
    requires
        eligible(accounts, preference(accounts, preferred), model, None, now),
    ensures
        FailoverModel::initial(accounts, policy, preferred, model).next(
            EventModel::Begin,
            accounts,
            now,
        ).1 == (ActionModel::Authenticate { id: preference(accounts, preferred) }),
{
}

proof fn lemma_chosen(
    candidates: Seq<Seq<char>>,
    accounts: AccountsModel,
    model: Seq<char>,
    scope: Option<Seq<char>>,
    now: u64,
)
    ensures
        match chosen(candidates, accounts, model, scope, now) {
            Some((id, rest)) => {
                &&& eligible(accounts, id, model, scope, now)
                &&& rest.len() < candidates.len()
                &&& candidates.contains(id)
                &&& forall|other: Seq<char>| #[trigger]
                    rest.contains(other) ==> candidates.contains(other)
                &&& candidates.no_duplicates() ==> rest.no_duplicates() && !rest.contains(id)
            },
            None => forall|i: int|
                0 <= i < candidates.len() ==> !eligible(
                    accounts,
                    #[trigger] candidates[i],
                    model,
                    scope,
                    now,
                ),
        },
    decreases candidates.len(),
{
    if candidates.len() > 0 {
        let shorter = candidates.skip(1);
        assert forall|other: Seq<char>| #[trigger] shorter.contains(other) implies candidates.contains(
            other,
        ) by {
            assert(candidates[shorter.index_of(other) + 1] == other);
        }
        assert(candidates.contains(candidates[0]));
        if candidates.no_duplicates() {
            assert forall|i: int, j: int|
                0 <= i < shorter.len() && 0 <= j < shorter.len() && i != j implies shorter[i]
                != shorter[j] by {
                assert(candidates[i + 1] != candidates[j + 1]);
            }
            if shorter.contains(candidates[0]) {
                assert(candidates[shorter.index_of(candidates[0]) + 1] == candidates[0]);
            }
        }
        if !eligible(accounts, candidates[0], model, scope, now) {
            lemma_chosen(shorter, accounts, model, scope, now);
            if chosen(candidates, accounts, model, scope, now) is None {
                assert forall|i: int| 0 <= i < candidates.len() implies !eligible(
                    accounts,
                    #[trigger] candidates[i],
                    model,
                    scope,
                    now,
                ) by {
                    if i > 0 {
                        assert(shorter[i - 1] == candidates[i]);
                    }
                }
            }
        }
    }
}

/// Only an account that can serve the request is tried: it is available for the model and is
/// granted every scope that another account lacked.
pub proof fn only_eligible_accounts_are_tried(
    before: FailoverModel,
    event: EventModel,
    accounts: AccountsModel,
    now: u64,
)
    ensures
        before.next(event, accounts, now).1 matches ActionModel::Authenticate { id } ==> eligible(
            accounts,
            id,
            before.model,
            before.next(event, accounts, now).0.required_scope,
            now,
        ) && before.candidates.contains(id),
{
    lemma_chosen(before.candidates, accounts, before.model, before.required_scope, now);
}

/// The request fails for want of an account only where no candidate can serve it.
pub proof fn no_eligible_account_is_passed_over(
    before: FailoverModel,
    accounts: AccountsModel,
    now: u64,
    i: int,
)
    requires
        0 <= i < before.candidates.len(),
        before.advance(accounts, now).1 is Fail,
    ensures
        !eligible(accounts, before.candidates[i], before.model, before.required_scope, now),
{
    lemma_chosen(before.candidates, accounts, before.model, before.required_scope, now);
}

proof fn lemma_step(
    before: FailoverModel,
    event: EventModel,
    accounts: AccountsModel,
    now: u64,
    id: Seq<char>,
)
    requires
        before.orderly(),
    ensures
        ({
            let (after, action) = before.next(event, accounts, now);
            &&& after.orderly()
            &&& sends(seq![action], id) + after.allowance(id) <= before.allowance(id)
        }),
{
    lemma_chosen(before.candidates, accounts, before.model, before.required_scope, now);
    let (after, action) = before.next(event, accounts, now);
    assert(seq![action].skip(1) =~= Seq::<ActionModel>::empty());
    assert(sends(seq![action].skip(1), id) == 0);
    assert(!Seq::<Seq<char>>::empty().contains(id));
}

/// A request is sent at most three times for one account: first, after its token was renewed, and
/// after a failure that may have passed. It is never sent for an account that is no candidate.
pub proof fn sends_are_bounded(
    start: FailoverModel,
    inputs: Seq<(EventModel, AccountsModel, u64)>,
    id: Seq<char>,
)
    requires
        start.orderly(),
    ensures
        sends(start.actions(inputs), id) <= start.allowance(id),
        start.phase is Start ==> sends(start.actions(inputs), id) <= 3,
        start.phase is Start && !start.candidates.contains(id) ==> sends(start.actions(inputs), id)
            == 0,
    decreases inputs.len(),
{
    if inputs.len() > 0 {
        let (event, accounts, now) = inputs[0];
        let (after, action) = start.next(event, accounts, now);
        lemma_step(start, event, accounts, now, id);
        sends_are_bounded(after, inputs.skip(1), id);
        let rest = after.actions(inputs.skip(1));
        assert((seq![action] + rest).skip(1) =~= rest);
        assert(seq![action].skip(1) =~= Seq::<ActionModel>::empty());
        assert(sends(seq![action].skip(1), id) == 0);
    }
}

/// Every step that does not end the request uses up some of its budget, so that every request
/// ends.
pub proof fn every_request_ends(
    before: FailoverModel,
    event: EventModel,
    accounts: AccountsModel,
    now: u64,
)
    ensures
        ({
            let (after, action) = before.next(event, accounts, now);
            ||| after.phase is Over && (action is Deliver || action is Fail)
            ||| after.budget() < before.budget()
        }),
{
    lemma_chosen(before.candidates, accounts, before.model, before.required_scope, now);
}

/// A failure that is not the account's, a missing permission that is not named, and any failure
/// under the policy to switch by hand end the request with the service's own error.
pub proof fn some_failures_end_the_request(
    before: FailoverModel,
    error: RequestError,
    failure: FailureModel,
    accounts: AccountsModel,
    now: u64,
)
    requires
        before.phase is Sending,
        failure is Other || failure == FailureModel::Scope(None) || (before.policy
            == AccountSwitchPolicy::Manual && !(failure is Unauthorized) && !(
        failure is Transient)),
    ensures
        ({
            let (recording, action) = before.next(
                EventModel::Failed { error, failure },
                accounts,
                now,
            );
            &&& action is Record
            &&& recording.next(EventModel::Recorded(Ok(())), accounts, now).1
                == ActionModel::Fail(ErrorModel::Request(error))
        }),
{
}

/// A refused token is renewed before any other account is tried, and only once.
pub proof fn refused_token_is_renewed_first(
    before: FailoverModel,
    error: RequestError,
    accounts: AccountsModel,
    now: u64,
)
    requires
        before.phase is Sending,
    ensures
        ({
            let (after, action) = before.next(
                EventModel::Failed { error, failure: FailureModel::Unauthorized },
                accounts,
                now,
            );
            &&& before.phase matches PhaseModel::Sending { id, credentials, refreshed, .. }
            &&& !refreshed ==> action == (ActionModel::Refresh {
                id,
                rejected: credentials.access_token,
            })
            &&& refreshed ==> action is Record
        }),
{
}

/// An account whose failure was recorded is not tried again for the model, before the limit that
/// the failure states has ended.
pub proof fn failed_account_is_not_tried_again(
    accounts: AccountsModel,
    id: Seq<char>,
    model: Seq<char>,
    token: Seq<char>,
    failure: FailureModel,
    scope: Option<Seq<char>>,
    now: u64,
)
    requires
        accounts.concerned(id, token, failure),
        match failure {
            FailureModel::RateLimit(until) => now < until,
            FailureModel::Quota(until) => now < until,
            _ => true,
        },
    ensures
        !eligible(accounts.after_failure(id, model, token, failure), id, model, scope, now),
{
    accounts::failed_account_is_unavailable(accounts.accounts[id], model, failure, now);
}

} // verus!
