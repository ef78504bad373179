//! Response streams: what is looked at before an answer is handed out, and while it comes.
use crate::failure;
use crate::failure::{AccountFailure, FailureModel, RequestError, StreamEvent};
use crate::time;
use std::time::SystemTime;
use vstd::prelude::*;
use vstd::string::*;

verus! {

/// How many events are held back at most before an answer is handed out.
pub const PREFLIGHT_LIMIT: usize = 32;

/// How a request fails that is not answered in time.
pub fn request_timed_out() -> (error: RequestError)
    ensures
        error matches RequestError::HttpSend { message } && message@ == "Request timed out"@,
{
    RequestError::HttpSend { message: "Request timed out".to_owned() }
}

/// How a stream fails whose first events do not come in time.
pub fn stream_timed_out() -> (error: RequestError)
    ensures
        error matches RequestError::HttpSend { message } && message@
            == "Response stream timed out"@,
{
    RequestError::HttpSend { message: "Response stream timed out".to_owned() }
}

/// The error that ends an answer of which nothing more comes in time.
pub const STALLED_MESSAGE: &'static str = "ChatGPT response stream timed out";

/// What an event means for a stream that was not yet handed out.
#[derive(Debug)]
pub enum PreflightStep {
    /// Wait for the next event.
    Continue,
    /// Hand out the events held back, and then the rest of the stream.
    Ready,
    /// The request failed.
    Fail(RequestError),
}

/// The events held back of a stream that was not yet handed out.
///
/// Up to the first event that is part of the answer the request can be sent again; after it, text
/// and tool calls could come twice.
pub struct Preflight<P> {
    pub buffered: Vec<P>,
}

/// The stream is handed out after an event that comes with `held` others before it.
pub open spec fn is_ready(event: StreamEvent, held: nat) -> bool {
    !event.is_metadata() || held + 1 >= PREFLIGHT_LIMIT
}

impl<P> Preflight<P> {
    /// No event came.
    pub fn new() -> (r: Self)
        ensures
            r.buffered@ == Seq::<P>::empty(),
    {
        Preflight { buffered: Vec::new() }
    }

    /// Takes in an event, and what it means.
    pub fn accept(&mut self, payload: P, event: &StreamEvent) -> (step: PreflightStep)
        ensures
            match event.reported() {
                Some(error) => {
                    &&& step matches PreflightStep::Fail(answer)
                    &&& failure::answers(error, answer)
                    &&& final(self).buffered@ == old(self).buffered@
                },
                None => {
                    &&& final(self).buffered@ == old(self).buffered@.push(payload)
                    &&& step == (if is_ready(*event, old(self).buffered@.len()) {
                        PreflightStep::Ready
                    } else {
                        PreflightStep::Continue
                    })
                },
            },
    {
        match failure::stream_event_error(event) {
            Some(error) => return PreflightStep::Fail(error),
            None => {},
        }
        let metadata = event.metadata();
        self.buffered.push(payload);
        if !metadata || self.buffered.len() >= PREFLIGHT_LIMIT {
            PreflightStep::Ready
        } else {
            PreflightStep::Continue
        }
    }
}

/// How many events of a stream are looked at before it is handed out or fails.
pub open spec fn inspected(events: Seq<StreamEvent>, held: nat) -> nat
    decreases events.len(),
{
    if events.len() == 0 {
        0
    } else if events[0].reported() is Some || is_ready(events[0], held) {
        1
    } else {
        1 + inspected(events.skip(1), held + 1)
    }
}

/// The events held back after some events of a stream, as far as they are looked at.
pub open spec fn held_back<P>(stream: Seq<(P, StreamEvent)>, held: Seq<P>) -> Seq<P>
    decreases stream.len(),
{
    if stream.len() == 0 || stream[0].1.reported() is Some {
        held
    } else if is_ready(stream[0].1, held.len()) {
        held.push(stream[0].0)
    } else {
        held_back(stream.skip(1), held.push(stream[0].0))
    }
}

/// The events of a stream.
pub open spec fn events_of<P>(stream: Seq<(P, StreamEvent)>) -> Seq<StreamEvent> {
    stream.map_values(|item: (P, StreamEvent)| item.1)
}

/// No event of a stream is lost, changed or moved by holding it back: where none of the events
/// looked at reports an error, what was held back is what was looked at, in order, and what was
/// not looked at follows, errors among it.
pub proof fn nothing_is_lost_in_preflight<P>(stream: Seq<(P, StreamEvent)>, held: Seq<P>)
    requires
        forall|i: int|
            0 <= i < stream.len() && i < inspected(events_of(stream), held.len()) ==> (
            #[trigger] stream[i]).1.reported() is None,
    ensures
        inspected(events_of(stream), held.len()) <= stream.len(),
        held_back(stream, held) + stream.skip(
            inspected(events_of(stream), held.len()) as int,
        ).map_values(|item: (P, StreamEvent)| item.0) == held + stream.map_values(
            |item: (P, StreamEvent)| item.0,
        ),
    decreases stream.len(),
{
    let payload = |item: (P, StreamEvent)| item.0;
    let count = inspected(events_of(stream), held.len()) as int;
    if stream.len() == 0 {
        assert(stream.skip(0) =~= stream);
    } else {
        let rest = stream.skip(1);
        assert(events_of(stream)[0] == stream[0].1);
        assert(events_of(stream).skip(1) =~= events_of(rest));
        assert(stream[0].1.reported() is None);
        let next = held.push(stream[0].0);
        assert(held + stream.map_values(payload) =~= next + rest.map_values(payload));
        if is_ready(stream[0].1, held.len()) {
            assert(count == 1);
        } else {
            assert forall|i: int| 0 <= i < rest.len() && i < count - 1 implies (
            #[trigger] rest[i]).1.reported() is None by {
                assert(rest[i] == stream[i + 1]);
            }
            nothing_is_lost_in_preflight(rest, next);
            assert(rest.skip(count - 1) =~= stream.skip(count));
        }
    }
}

/// At most so many events are looked at before a stream is handed out or fails.
pub proof fn preflight_is_short(events: Seq<StreamEvent>, held: nat)
    requires
        held < PREFLIGHT_LIMIT,
    ensures
        inspected(events, held) + held <= PREFLIGHT_LIMIT,
    decreases events.len(),
{
    if events.len() > 0 && events[0].reported() is None && !is_ready(events[0], held) {
        preflight_is_short(events.skip(1), held + 1);
    }
}

/// An event that is part of the answer ends the time in which the request can be sent again.
pub proof fn nothing_is_replayed_after_output(events: Seq<StreamEvent>, held: nat, i: int)
    requires
        0 <= i < events.len(),
        !events[i].is_metadata(),
    ensures
        inspected(events, held) <= i + 1,
    decreases i,
{
    if i > 0 && events[0].reported() is None && !is_ready(events[0], held) {
        assert(events.skip(1)[i - 1] == events[i]);
        nothing_is_replayed_after_output(events.skip(1), held + 1, i - 1);
    }
}

/// What an event means while an answer comes. The event itself is passed on in any case.
#[derive(Debug)]
pub enum MonitorStep {
    /// More may come.
    PassOn,
    /// Nothing more comes.
    PassOnAndStop,
    /// The access token was refused: first the account's credentials are renewed. Nothing more
    /// comes.
    RenewAndStop,
    /// First the failure of the account is recorded. Nothing more comes.
    RecordAndStop(AccountFailure),
}

/// What a step holds.
#[verifier::ext_equal]
pub enum MonitorModel {
    PassOn,
    PassOnAndStop,
    RenewAndStop,
    RecordAndStop(FailureModel),
}

impl View for MonitorStep {
    type V = MonitorModel;

    open spec fn view(&self) -> MonitorModel {
        match *self {
            MonitorStep::PassOn => MonitorModel::PassOn,
            MonitorStep::PassOnAndStop => MonitorModel::PassOnAndStop,
            MonitorStep::RenewAndStop => MonitorModel::RenewAndStop,
            MonitorStep::RecordAndStop(failure) => MonitorModel::RecordAndStop(failure@),
        }
    }
}

/// What a failure holds, if there is one.
pub open spec fn failure_model(failure: Option<AccountFailure>) -> Option<FailureModel> {
    match failure {
        Some(failure) => Some(failure@),
        None => None,
    }
}

/// What an event means, given what its error says of the account; a broken stream has no event.
pub open spec fn monitored(broken: bool, failure: Option<FailureModel>) -> MonitorModel {
    if broken {
        MonitorModel::PassOnAndStop
    } else {
        match failure {
            None => MonitorModel::PassOn,
            Some(FailureModel::Unauthorized) => MonitorModel::RenewAndStop,
            Some(failure) => MonitorModel::RecordAndStop(failure),
        }
    }
}

/// `failure` is what the error of an event says of the account at `now`, if the event has one.
pub open spec fn event_failure(event: StreamEvent, now: u64, failure: Option<FailureModel>) -> bool {
    match event.reported() {
        None => failure is None,
        Some(error) => exists|answer: RequestError| #[trigger]
            failure::answers(error, answer) && failure == Some(
                failure::failure_of(answer, failure::body_payload(answer), now),
            ),
    }
}

/// What an event means, given what its error says of the account.
pub fn monitor_failure(broken: bool, failure: Option<AccountFailure>) -> (step: MonitorStep)
    ensures
        step@ == monitored(
            broken,
            failure_model(failure),
        ),
{
    if broken {
        return MonitorStep::PassOnAndStop;
    }
    match failure {
        None => MonitorStep::PassOn,
        Some(AccountFailure::Unauthorized) => MonitorStep::RenewAndStop,
        Some(failure) => MonitorStep::RecordAndStop(failure),
    }
}

/// What the error of an event says of the account at a time.
pub fn failure_in_event_at(event: &StreamEvent, now: u64) -> (failure: Option<AccountFailure>)
    ensures
        event_failure(
            *event,
            now,
            failure_model(failure),
        ),
{
    match failure::stream_event_error(event) {
        Some(answer) => {
            assert(failure::answers(event.reported()->0, answer));
            Some(failure::classify_failure_at(&answer, now))
        },
        None => None,
    }
}

/// What an event of a stream means at a time; a broken stream has no event.
pub fn monitor_event_at(event: Option<&StreamEvent>, now: u64) -> (step: MonitorStep)
    ensures
        match event {
            None => step@ is PassOnAndStop,
            Some(event) => exists|failure: Option<FailureModel>| #[trigger]
                event_failure(*event, now, failure) && step@ == monitored(false, failure),
        },
{
    match event {
        None => monitor_failure(true, None),
        Some(event) => {
            let failure = failure_in_event_at(event, now);
            assert(event_failure(*event, now, failure_model(failure)));
            monitor_failure(false, failure)
        },
    }
}

/// What an event of a stream means by the wall clock; a broken stream has no event.
pub fn monitor_event(event: Option<&StreamEvent>) -> (step: MonitorStep)
    ensures
        match event {
            None => step@ is PassOnAndStop,
            Some(event) => exists|reading: SystemTime, failure: Option<FailureModel>| #[trigger]
                event_failure(*event, time::read_ms(reading), failure) && step@ == monitored(
                    false,
                    failure,
                ),
        },
        event matches Some(event) && event.reported() is None ==> step@ is PassOn,
{
    let now = time::now_ms();
    monitor_event_at(event, now)
}

/// An answer goes on until an event reports an error or the stream breaks.
pub proof fn answers_end_with_errors(event: StreamEvent, now: u64, failure: Option<FailureModel>)
    requires
        event_failure(event, now, failure),
    ensures
        monitored(false, failure) is PassOn == (event.reported() is None),
        monitored(true, failure) is PassOnAndStop,
{
}

/// An event of an answer that makes a context shorter: the context is of type `C`, the count of
/// tokens of type `U`.
pub enum CompactionEvent<C, U> {
    /// The shorter context.
    Finished(C),
    /// How many tokens were used so far.
    Usage(U),
    Other,
}

/// What came of an answer so far.
pub struct Compaction<C, U> {
    pub context: Option<C>,
    pub usage: U,
}

pub const SEVERAL_CONTEXTS_MESSAGE: &'static str =
    "ChatGPT subscription compaction returned multiple replacement contexts";

pub const NO_CONTEXT_MESSAGE: &'static str =
    "ChatGPT subscription compaction returned no replacement context";

impl<C, U> Compaction<C, U> {
    /// Nothing came, and no tokens were used.
    pub fn new(usage: U) -> (r: Self)
        ensures
            r == (Compaction { context: None::<C>, usage }),
    {
        Compaction { context: None, usage }
    }

    /// Takes in an event; a second context is an error.
    pub fn accept(&mut self, event: CompactionEvent<C, U>) -> (r: Result<(), String>)
        ensures
            match event {
                CompactionEvent::Finished(context) => {
                    &&& *final(self) == (Compaction { context: Some(context), ..*old(self) })
                    &&& old(self).context is None ==> r is Ok
                    &&& old(self).context is Some ==> (r matches Err(message) && message@
                        == SEVERAL_CONTEXTS_MESSAGE@)
                },
                CompactionEvent::Usage(usage) => r is Ok && *final(self) == (Compaction {
                    usage,
                    ..*old(self)
                }),
                CompactionEvent::Other => r is Ok && *final(self) == *old(self),
            },
    {
        match event {
            CompactionEvent::Finished(context) => {
                let second = self.context.is_some();
                self.context = Some(context);
                if second {
                    return Err(SEVERAL_CONTEXTS_MESSAGE.to_owned());
                }
            },
            CompactionEvent::Usage(usage) => {
                self.usage = usage;
            },
            CompactionEvent::Other => {},
        }
        Ok(())
    }

    /// What came of the whole answer: its context and the tokens that were used.
    pub fn finish(self) -> (r: Result<(C, U), String>)
        ensures
            match self.context {
                Some(context) => r == Ok::<(C, U), String>((context, self.usage)),
                None => r matches Err(message) && message@ == NO_CONTEXT_MESSAGE@,
            },
    {
        match self.context {
            Some(context) => Ok((context, self.usage)),
            None => Err(NO_CONTEXT_MESSAGE.to_owned()),
        }
    }

    /// Takes in a whole answer.
    pub fn collect(usage: U, events: Vec<CompactionEvent<C, U>>) -> (r: Result<(C, U), String>)
        ensures
            match r {
                Ok((context, used)) => contexts(events@) == seq![context] && used == last_usage(
                    events@,
                    usage,
                ),
                Err(message) => if contexts(events@).len() == 0 {
                    message@ == NO_CONTEXT_MESSAGE@
                } else {
                    contexts(events@).len() > 1 && message@ == SEVERAL_CONTEXTS_MESSAGE@
                },
            },
    {
        let ghost all = events@;
        let mut left = events;
        let mut compaction = Compaction::new(usage);
        let ghost mut done: int = 0;
        assert(contexts(all.take(0)) =~= Seq::<C>::empty());
        while left.len() > 0
            invariant
                0 <= done <= all.len(),
                left@ == all.skip(done),
                compaction.context == (if contexts(all.take(done)).len() == 0 {
                    None
                } else {
                    Some(contexts(all.take(done))[0])
                }),
                contexts(all.take(done)).len() <= 1,
                compaction.usage == last_usage(all.take(done), usage),
                all == events@,
            decreases left@.len(),
        {
            let event = left.remove(0);
            assert(event == all[done]);
            assert(left@ =~= all.skip(done + 1));
            assert(all.take(done + 1).drop_last() =~= all.take(done));
            assert(all.take(done + 1).last() == event);
            match compaction.accept(event) {
                Ok(_) => {},
                Err(message) => {
                    proof {
                        lemma_contexts_grow(all, done + 1);
                    }
                    return Err(message);
                },
            }
            proof {
                done = done + 1;
            }
        }
        assert(all.take(done) =~= all);
        assert(contexts(all).len() == 1 ==> contexts(all) =~= seq![contexts(all)[0]]);
        compaction.finish()
    }
}

/// The contexts among the events of an answer.
pub open spec fn contexts<C, U>(events: Seq<CompactionEvent<C, U>>) -> Seq<C>
    decreases events.len(),
{
    if events.len() == 0 {
        Seq::empty()
    } else {
        let rest = contexts(events.drop_last());
        match events.last() {
            CompactionEvent::Finished(context) => rest.push(context),
            _ => rest,
        }
    }
}

/// The last count of tokens among the events of an answer.
pub open spec fn last_usage<C, U>(events: Seq<CompactionEvent<C, U>>, before: U) -> U
    decreases events.len(),
{
    if events.len() == 0 {
        before
    } else {
        match events.last() {
            CompactionEvent::Usage(usage) => usage,
            _ => last_usage(events.drop_last(), before),
        }
    }
}

proof fn lemma_contexts_grow<C, U>(events: Seq<CompactionEvent<C, U>>, n: int)
    requires
        0 <= n <= events.len(),
    ensures
        contexts(events.take(n)).len() <= contexts(events).len(),
    decreases events.len() - n,
{
    if n < events.len() {
        lemma_contexts_grow(events, n + 1);
        assert(events.take(n + 1).drop_last() =~= events.take(n));
    } else {
        assert(events.take(n) =~= events);
    }
}

} // verus!
