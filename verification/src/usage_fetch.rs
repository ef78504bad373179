//! Asking the service for the usage of an account: when a request is sent, and what comes of it.
//!
//! [`UsageFetch`] decides; the host sends, renews tokens, waits and reads answers, and reports what
//! came of it.
use crate::credentials::{CodexCredentials, CredentialsModel};
use crate::encoding;
use crate::oauth;
use crate::state::{State, StateModel, UsageRequest};
use crate::text;
use crate::time::Timestamp;
use crate::usage;
use crate::usage::{AccountUsage, UsageModel, UsageResponse};
use vstd::prelude::*;
use vstd::string::*;

verus! {

/// How long the answer to a request is used for further ones, in nanoseconds: a minute.
pub const CACHE_NANOS: u64 = 60_000_000_000;

/// The error of a request that is not answered in time.
pub const USAGE_TIMEOUT_MESSAGE: &'static str = "ChatGPT usage request timed out";

pub const STRANGER_MESSAGE: &'static str = "Usage response belongs to a different account";

pub const STALE_USAGE_MESSAGE: &'static str = "Account changed while loading usage";

/// A request that was started at `started_at` serves another one at `now`: it is under way, or is
/// not a minute old and no newer answer is demanded.
pub open spec fn serves(started_at: u64, finished: bool, force: bool, now: u64) -> bool {
    !finished || (!force && now - started_at < CACHE_NANOS)
}

impl<T> StateModel<T> {
    /// The request for the usage of an account that serves another one.
    pub open spec fn usage_to_join(
        self,
        id: Seq<char>,
        finished: bool,
        force: bool,
        now: u64,
    ) -> Option<T> {
        if self.usage_requests.contains_key(id) && serves(
            self.usage_requests[id].started_at,
            finished,
            force,
            now,
        ) {
            Some(self.usage_requests[id].task)
        } else {
            None
        }
    }

    /// A request for the usage of an account is started.
    pub open spec fn usage_requested(self, id: Seq<char>, task: T, now: u64) -> StateModel<T> {
        StateModel {
            usage_requests: self.usage_requests.insert(id, UsageRequest { started_at: now, task }),
            ..self
        }
    }

    /// Nobody signed in or out since the generation, and the account is there.
    pub open spec fn usage_counts(self, generation: u64, id: Seq<char>) -> bool {
        self.auth_generation == generation && self.accounts.accounts.contains_key(id)
    }
}

impl<T> State<T> {
    /// The request for the usage of an account that serves another one, given whether it is
    /// finished and the time by the clock that only goes forward.
    pub fn usage_to_join(&self, id: &str, finished: bool, force: bool, now: u64) -> (r: Option<&T>)
        ensures
            match r {
                Some(task) => self@.usage_to_join(id@, finished, force, now) == Some(*task),
                None => self@.usage_to_join(id@, finished, force, now) is None,
            },
    {
        match self.usage_requests.get(id) {
            Some(request) => {
                let fresh = now < request.started_at || now - request.started_at < CACHE_NANOS;
                if !finished || (!force && fresh) {
                    Some(&request.task)
                } else {
                    None
                }
            },
            None => None,
        }
    }

    /// Keeps the task of a request that was started.
    pub fn keep_usage_request(&mut self, id: String, task: T, now: u64)
        ensures
            final(self)@ == old(self)@.usage_requested(id@, task, now),
    {
        self.usage_requests.insert(id, UsageRequest { started_at: now, task });
    }

    /// What those who asked for the usage of an account get: an answer counts only if nobody
    /// signed in or out since the generation in which it was asked for.
    pub fn usage_result<U>(&self, generation: u64, id: &str, result: Result<U, String>) -> (r:
        Result<U, String>)
        ensures
            if self@.usage_counts(generation, id@) {
                r == result
            } else {
                r matches Err(message) && message@ == STALE_USAGE_MESSAGE@
            },
    {
        if self.auth_generation != generation || !self.accounts.accounts.contains_key(id) {
            return Err(STALE_USAGE_MESSAGE.to_owned());
        }
        result
    }
}

/// How far a request has come.
#[derive(Debug)]
pub enum FetchPhase {
    /// The credentials of the account are awaited, perhaps for a token that was refused.
    Authenticating { refreshed: bool, retried: bool },
    /// The request was sent.
    Sending { credentials: CodexCredentials, refreshed: bool, retried: bool },
    /// The request is sent again after a while.
    Waiting { credentials: CodexCredentials, refreshed: bool },
    /// The answer is read.
    Reading { account_id: Option<String> },
    /// The usage is there, or the request has failed.
    Over,
}

/// What a phase holds.
#[verifier::ext_equal]
pub enum FetchModel {
    Authenticating { refreshed: bool, retried: bool },
    Sending { credentials: CredentialsModel, refreshed: bool, retried: bool },
    Waiting { credentials: CredentialsModel, refreshed: bool },
    Reading { account_id: Option<Seq<char>> },
    Over,
}

impl View for FetchPhase {
    type V = FetchModel;

    open spec fn view(&self) -> FetchModel {
        match *self {
            FetchPhase::Authenticating { refreshed, retried } => FetchModel::Authenticating {
                refreshed,
                retried,
            },
            FetchPhase::Sending { credentials, refreshed, retried } => FetchModel::Sending {
                credentials: credentials@,
                refreshed,
                retried,
            },
            FetchPhase::Waiting { credentials, refreshed } => FetchModel::Waiting {
                credentials: credentials@,
                refreshed,
            },
            FetchPhase::Reading { account_id } => FetchModel::Reading {
                account_id: account_id.deep_view(),
            },
            FetchPhase::Over => FetchModel::Over,
        }
    }
}

/// What the host has to do.
#[derive(Debug)]
pub enum FetchAction {
    /// Get the account's credentials after a token was refused, and report them.
    Refresh { rejected: String },
    /// Send the request, and report the answer.
    Send { credentials: CodexCredentials },
    /// Wait a second, and report that.
    Wait,
    /// Read the answer, and report what it is.
    Read { body: String },
    /// Hand out the usage.
    Done(AccountUsage),
    /// Give up.
    Fail(String),
}

/// What an action holds.
#[verifier::ext_equal]
pub enum FetchActionModel {
    Refresh { rejected: Seq<char> },
    Send { credentials: CredentialsModel },
    Wait,
    Read { body: Seq<char> },
    Done(UsageModel),
    Fail(Seq<char>),
}

impl View for FetchAction {
    type V = FetchActionModel;

    open spec fn view(&self) -> FetchActionModel {
        match *self {
            FetchAction::Refresh { rejected } => FetchActionModel::Refresh { rejected: rejected@ },
            FetchAction::Send { credentials } => FetchActionModel::Send {
                credentials: credentials@,
            },
            FetchAction::Wait => FetchActionModel::Wait,
            FetchAction::Read { body } => FetchActionModel::Read { body: body@ },
            FetchAction::Done(usage) => FetchActionModel::Done(usage@),
            FetchAction::Fail(message) => FetchActionModel::Fail(message@),
        }
    }
}

/// What happened.
#[derive(Debug)]
pub enum FetchEvent {
    /// The credentials that were awaited.
    Credentials(Result<CodexCredentials, String>),
    /// The service answered with a status and a body.
    Answered { status: u16, body: String },
    /// The service could not be reached, or did not answer in time.
    Unanswered(String),
    /// The wait is over.
    Waited,
    /// The answer was read, at a time.
    Read(Result<UsageResponse, String>, Timestamp),
}

/// What an event holds.
#[verifier::ext_equal]
pub enum FetchEventModel {
    Credentials(Result<CredentialsModel, Seq<char>>),
    Answered { status: u16, body: Seq<char> },
    Unanswered(Seq<char>),
    Waited,
    Read(Result<UsageResponse, Seq<char>>, int),
}

impl View for FetchEvent {
    type V = FetchEventModel;

    open spec fn view(&self) -> FetchEventModel {
        match *self {
            FetchEvent::Credentials(Ok(credentials)) => FetchEventModel::Credentials(
                Ok(credentials@),
            ),
            FetchEvent::Credentials(Err(message)) => FetchEventModel::Credentials(Err(message@)),
            FetchEvent::Answered { status, body } => FetchEventModel::Answered {
                status,
                body: body@,
            },
            FetchEvent::Unanswered(message) => FetchEventModel::Unanswered(message@),
            FetchEvent::Waited => FetchEventModel::Waited,
            FetchEvent::Read(Ok(response), at) => FetchEventModel::Read(Ok(response), at@),
            FetchEvent::Read(Err(message), at) => FetchEventModel::Read(Err(message@), at@),
        }
    }
}

/// The answer is that of another account.
pub open spec fn misdirected(response: UsageResponse, account_id: Option<Seq<char>>) -> bool {
    response.account_id is Some && account_id is Some && response.account_id.deep_view()
        != account_id
}

/// The message for an answer that grants nothing.
pub open spec fn refusal(status: u16) -> Seq<char> {
    "Could not load ChatGPT account usage (HTTP "@ + encoding::status_text(status) + ")"@
}

impl FetchModel {
    /// What comes after an answer: a failing server is asked again once, and a refused token is
    /// renewed once.
    pub open spec fn answered(
        credentials: CredentialsModel,
        refreshed: bool,
        retried: bool,
        status: u16,
        body: Seq<char>,
    ) -> (FetchModel, FetchActionModel) {
        if !retried && oauth::is_server_error(status) {
            (FetchModel::Waiting { credentials, refreshed }, FetchActionModel::Wait)
        } else if status == 401 && !refreshed {
            (
                FetchModel::Authenticating { refreshed: true, retried },
                FetchActionModel::Refresh { rejected: credentials.access_token },
            )
        } else if !oauth::is_success(status) {
            (FetchModel::Over, FetchActionModel::Fail(refusal(status)))
        } else {
            (
                FetchModel::Reading { account_id: credentials.account_id },
                FetchActionModel::Read { body },
            )
        }
    }

    /// What comes after an event.
    ///
    /// An event that the phase does not wait for ends the request.
    pub open spec fn next(self, event: FetchEventModel) -> (FetchModel, FetchActionModel) {
        match (self, event) {
            (
                FetchModel::Authenticating { refreshed, retried },
                FetchEventModel::Credentials(Ok(credentials)),
            ) => (
                FetchModel::Sending { credentials, refreshed, retried },
                FetchActionModel::Send { credentials },
            ),
            (FetchModel::Authenticating { .. }, FetchEventModel::Credentials(Err(message))) => (
                FetchModel::Over,
                FetchActionModel::Fail(message),
            ),
            (
                FetchModel::Sending { credentials, refreshed, retried },
                FetchEventModel::Answered { status, body },
            ) => Self::answered(credentials, refreshed, retried, status, body),
            (
                FetchModel::Sending { credentials, refreshed, retried },
                FetchEventModel::Unanswered(message),
            ) => if retried {
                (FetchModel::Over, FetchActionModel::Fail(message))
            } else {
                (FetchModel::Waiting { credentials, refreshed }, FetchActionModel::Wait)
            },
            (FetchModel::Waiting { credentials, refreshed }, FetchEventModel::Waited) => (
                FetchModel::Sending { credentials, refreshed, retried: true },
                FetchActionModel::Send { credentials },
            ),
            (FetchModel::Reading { account_id }, FetchEventModel::Read(Ok(response), at)) => (
                FetchModel::Over,
                if misdirected(response, account_id) {
                    FetchActionModel::Fail(STRANGER_MESSAGE@)
                } else {
                    FetchActionModel::Done(usage::normal_usage(response, at))
                },
            ),
            (FetchModel::Reading { .. }, FetchEventModel::Read(Err(unreadable), _)) => (
                FetchModel::Over,
                FetchActionModel::Fail("Invalid ChatGPT usage response: "@ + unreadable),
            ),
            _ => (FetchModel::Over, FetchActionModel::Fail(STALE_USAGE_MESSAGE@)),
        }
    }

    /// How often the request can still be sent.
    pub open spec fn sends_left(self) -> nat {
        match self {
            FetchModel::Authenticating { refreshed, retried } => 1 + spare(refreshed) + spare(
                retried,
            ),
            FetchModel::Sending { refreshed, retried, .. } => spare(refreshed) + spare(retried),
            FetchModel::Waiting { refreshed, .. } => 1 + spare(refreshed),
            _ => 0,
        }
    }

    /// What the host is told to do by a row of events.
    pub open spec fn actions(self, events: Seq<FetchEventModel>) -> Seq<FetchActionModel>
        decreases events.len(),
    {
        if events.len() == 0 {
            Seq::empty()
        } else {
            let (after, action) = self.next(events[0]);
            seq![action] + after.actions(events.skip(1))
        }
    }
}

/// One for a chance that was not yet taken.
pub open spec fn spare(taken: bool) -> nat {
    if taken {
        0
    } else {
        1
    }
}

/// How many of the actions send the request.
pub open spec fn usage_sends(actions: Seq<FetchActionModel>) -> nat
    decreases actions.len(),
{
    if actions.len() == 0 {
        0
    } else {
        spare(!(actions[0] is Send)) + usage_sends(actions.skip(1))
    }
}

/// A request for the usage of an account.
#[derive(Debug)]
pub struct UsageFetch {
    pub phase: FetchPhase,
}

fn from_other_account(response: &UsageResponse, account_id: &Option<String>) -> (r: bool)
    ensures
        r == misdirected(*response, account_id.deep_view()),
{
    match (&response.account_id, account_id) {
        (Some(returned), Some(expected)) => !text::same(returned, expected),
        _ => false,
    }
}

impl UsageFetch {
    /// A request that waits for the account's credentials.
    pub fn new() -> (r: UsageFetch)
        ensures
            r.phase@ == (FetchModel::Authenticating { refreshed: false, retried: false }),
    {
        UsageFetch { phase: FetchPhase::Authenticating { refreshed: false, retried: false } }
    }

    fn answer(
        &mut self,
        credentials: CodexCredentials,
        refreshed: bool,
        retried: bool,
        status: u16,
        body: String,
    ) -> (action: FetchAction)
        requires
            100 <= status <= 999,
        ensures
            (final(self).phase@, action@) == FetchModel::answered(
                credentials@,
                refreshed,
                retried,
                status,
                body@,
            ),
    {
        if !retried && oauth::server_failed(status) {
            self.phase = FetchPhase::Waiting { credentials, refreshed };
            FetchAction::Wait
        } else if status == 401 && !refreshed {
            self.phase = FetchPhase::Authenticating { refreshed: true, retried };
            FetchAction::Refresh { rejected: credentials.access_token }
        } else if !oauth::succeeded(status) {
            self.phase = FetchPhase::Over;
            FetchAction::Fail(
                text::joined3(
                    "Could not load ChatGPT account usage (HTTP ",
                    &encoding::status_text_of(status),
                    ")",
                ),
            )
        } else {
            self.phase = FetchPhase::Reading { account_id: credentials.account_id };
            FetchAction::Read { body }
        }
    }

    /// Takes in what happened, and says what is to be done.
    ///
    /// An event that the phase does not wait for ends the request.
    pub fn step(&mut self, event: FetchEvent) -> (action: FetchAction)
        requires
            event matches FetchEvent::Answered { status, .. } ==> 100 <= status <= 999,
        ensures
            (final(self).phase@, action@) == old(self).phase@.next(event@),
    {
        let mut phase = FetchPhase::Over;
        core::mem::swap(&mut phase, &mut self.phase);
        match (phase, event) {
            (
                FetchPhase::Authenticating { refreshed, retried },
                FetchEvent::Credentials(Ok(credentials)),
            ) => {
                self.phase = FetchPhase::Sending {
                    credentials: credentials.clone(),
                    refreshed,
                    retried,
                };
                FetchAction::Send { credentials }
            },
            (FetchPhase::Authenticating { .. }, FetchEvent::Credentials(Err(message))) => {
                FetchAction::Fail(message)
            },
            (
                FetchPhase::Sending { credentials, refreshed, retried },
                FetchEvent::Answered { status, body },
            ) => self.answer(credentials, refreshed, retried, status, body),
            (
                FetchPhase::Sending { credentials, refreshed, retried },
                FetchEvent::Unanswered(message),
            ) => {
                if retried {
                    FetchAction::Fail(message)
                } else {
                    self.phase = FetchPhase::Waiting { credentials, refreshed };
                    FetchAction::Wait
                }
            },
            (FetchPhase::Waiting { credentials, refreshed }, FetchEvent::Waited) => {
                self.phase = FetchPhase::Sending {
                    credentials: credentials.clone(),
                    refreshed,
                    retried: true,
                };
                FetchAction::Send { credentials }
            },
            (FetchPhase::Reading { account_id }, FetchEvent::Read(Ok(response), at)) => {
                if from_other_account(&response, &account_id) {
                    FetchAction::Fail(STRANGER_MESSAGE.to_owned())
                } else {
                    FetchAction::Done(response.normalize(at))
                }
            },
            (FetchPhase::Reading { .. }, FetchEvent::Read(Err(unreadable), _)) => {
                FetchAction::Fail(text::joined("Invalid ChatGPT usage response: ", &unreadable))
            },
            _ => FetchAction::Fail(STALE_USAGE_MESSAGE.to_owned()),
        }
    }
}

/// A request for the usage is sent at most three times: first, after its token was renewed, and
/// after a failure that may have passed.
pub proof fn usage_sends_are_bounded(start: FetchModel, events: Seq<FetchEventModel>)
    ensures
        usage_sends(start.actions(events)) <= start.sends_left(),
    decreases events.len(),
{
    if events.len() > 0 {
        let (after, action) = start.next(events[0]);
        let rest = after.actions(events.skip(1));
        usage_sends_are_bounded(after, events.skip(1));
        assert((seq![action] + rest).skip(1) =~= rest);
    }
}

/// Usage of another account is never handed out.
pub proof fn usage_of_other_account_is_refused(
    account_id: Seq<char>,
    response: UsageResponse,
    at: int,
)
    requires
        response.account_id.deep_view() matches Some(returned) && returned != account_id,
    ensures
        (FetchModel::Reading { account_id: Some(account_id) }).next(
            FetchEventModel::Read(Ok(response), at),
        ).1 == FetchActionModel::Fail(STRANGER_MESSAGE@),
{
}

/// Requests for the usage of one account are shared while one is under way, and for a minute
/// after it was started unless a newer answer is demanded.
pub proof fn usage_requests_are_shared<T>(
    before: StateModel<T>,
    id: Seq<char>,
    task: T,
    started_at: u64,
    now: u64,
)
    ensures
        ({
            let after = before.usage_requested(id, task, started_at);
            &&& forall|force: bool| #[trigger]
                after.usage_to_join(id, false, force, now) == Some(task)
            &&& after.usage_to_join(id, true, true, now) is None
            &&& (after.usage_to_join(id, true, false, now) is Some) == (now - started_at
                < CACHE_NANOS)
        }),
{
}

/// Usage that was asked for before a sign-out, a sign-in or the removal of the account does not
/// count.
pub proof fn pending_usage_is_discarded<T>(
    before: StateModel<T>,
    id: Seq<char>,
    removed: Seq<char>,
    credentials: CredentialsModel,
    now: u64,
)
    requires
        before.auth_generation < u64::MAX,
    ensures
        !before.after_sign_out().usage_counts(before.auth_generation, id),
        !before.after_removal(removed).usage_counts(before.auth_generation, id),
        !before.accepted(credentials, now).usage_counts(before.auth_generation, id),
{
}

} // verus!
