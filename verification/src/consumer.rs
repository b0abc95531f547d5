//! The consumer's work on one request: up to three attempts at the pricing
//! service, a pause between two attempts, and one delivery at the end.
//!
//! The state machine decides; the program that drives it makes the call,
//! sleeps and sends the result on the request's response channel.

use vstd::prelude::*;
use vstd::string::*;
use crate::error::{ErrorView, QuoteErrorKind, QuoteRequestError};
use crate::quote::{
    parse_quote_body, spec_parse_quote_body, AssetQuoteRequest, AssetQuoteResponse, QuoteView,
};

verus! {

/// How many attempts one request gets.
pub const RETRY_BUDGET: u8 = 3;

/// How many seconds pass between a failed attempt and the next one.
pub const RETRY_DELAY_SECS: u64 = 1;

/// What came back from one call to the pricing service.
#[derive(Debug, Clone, PartialEq, Eq)]
pub enum Reply {
    /// The call failed before a body arrived; the text says how.
    TransportFailure(String),
    /// The body of the reply.
    Body(String),
}

/// Where the work on a request stands.
#[derive(Debug, Clone, Copy, PartialEq, Eq, Structural)]
pub enum Phase {
    /// A call is under way.
    Calling,
    /// The pause before the next call is under way.
    Delaying,
    /// The result has been handed out.
    Done,
}

/// The state of the work on one request.
#[derive(Debug, Clone, PartialEq, Eq)]
pub struct ConsumerState {
    pub phase: Phase,
    /// Attempts that are left, the one under way included.
    pub attempts_left: u8,
    /// The failure of the last attempt that failed.
    pub last_error: Option<QuoteRequestError>,
}

/// What the driver reports back.
#[derive(Debug, PartialEq, Eq)]
pub enum ConsumerEvent {
    /// The call has ended, with a quote or a failure.
    Outcome(Result<AssetQuoteResponse, QuoteRequestError>),
    /// The pause has ended.
    DelayElapsed,
}

/// What the driver is to do next.
#[derive(Debug, PartialEq, Eq)]
pub enum ConsumerAction {
    /// Make the call and report its outcome.
    Call,
    /// Sleep for so many seconds and report that the pause has ended.
    Sleep(u64),
    /// Send the result on the response channel, once; the request is done,
    /// whether or not anyone still listens.
    Deliver(Result<AssetQuoteResponse, QuoteRequestError>),
    /// Nothing: the event was not awaited.
    Nothing,
}

/// The outcome of an attempt, as a value.
pub type OutcomeView = Result<QuoteView, ErrorView>;

/// What the state of a request holds.
pub struct ConsumerStateView {
    pub phase: Phase,
    pub attempts_left: u8,
    pub last_error: Option<ErrorView>,
}

/// What an event holds.
pub enum ConsumerEventView {
    Outcome(OutcomeView),
    DelayElapsed,
}

/// What an action holds.
pub enum ConsumerActionView {
    Call,
    Sleep(u64),
    Deliver(OutcomeView),
    Nothing,
}

/// The value of an outcome.
pub open spec fn outcome_view(outcome: Result<AssetQuoteResponse, QuoteRequestError>) -> OutcomeView {
    match outcome {
        Ok(q) => Ok(q@),
        Err(e) => Err(e@),
    }
}

/// Whether an outcome, where it is a quote, is a well-formed one.
pub open spec fn outcome_wf(outcome: Result<AssetQuoteResponse, QuoteRequestError>) -> bool {
    outcome matches Ok(q) ==> q.wf()
}

impl View for ConsumerState {
    type V = ConsumerStateView;

    open spec fn view(&self) -> ConsumerStateView {
        ConsumerStateView {
            phase: self.phase,
            attempts_left: self.attempts_left,
            last_error: match self.last_error {
                Some(e) => Some(e@),
                None => None,
            },
        }
    }
}

impl View for ConsumerEvent {
    type V = ConsumerEventView;

    open spec fn view(&self) -> ConsumerEventView {
        match self {
            ConsumerEvent::Outcome(outcome) => ConsumerEventView::Outcome(outcome_view(*outcome)),
            ConsumerEvent::DelayElapsed => ConsumerEventView::DelayElapsed,
        }
    }
}

impl View for ConsumerAction {
    type V = ConsumerActionView;

    open spec fn view(&self) -> ConsumerActionView {
        match self {
            ConsumerAction::Call => ConsumerActionView::Call,
            ConsumerAction::Sleep(secs) => ConsumerActionView::Sleep(*secs),
            ConsumerAction::Deliver(outcome) => ConsumerActionView::Deliver(outcome_view(*outcome)),
            ConsumerAction::Nothing => ConsumerActionView::Nothing,
        }
    }
}

impl ConsumerEvent {
    /// Whether the quote in the event, if there is one, is well formed.
    pub open spec fn wf(&self) -> bool {
        self matches ConsumerEvent::Outcome(outcome) ==> outcome_wf(*outcome)
    }
}

impl ConsumerAction {
    /// Whether the quote in the action, if there is one, is well formed.
    pub open spec fn wf(&self) -> bool {
        self matches ConsumerAction::Deliver(outcome) ==> outcome_wf(*outcome)
    }
}

/// The error that is delivered where no attempt has left one.
pub open spec fn no_error_recorded() -> ErrorView {
    ErrorView { kind: QuoteErrorKind::Internal, detail: "No Error"@ }
}

/// The error that is delivered when the attempts have run out: the last one
/// recorded, or the fallback.
pub open spec fn exhausted_error(last_error: Option<ErrorView>) -> ErrorView {
    match last_error {
        Some(e) => e,
        None => no_error_recorded(),
    }
}

/// The state of a request whose result has been handed out.
pub open spec fn spec_done(attempts_left: u8) -> ConsumerStateView {
    ConsumerStateView { phase: Phase::Done, attempts_left, last_error: None }
}

/// The state and the first action for a request that gets `budget` attempts.
pub open spec fn spec_start_with(budget: u8) -> (ConsumerStateView, ConsumerActionView) {
    if budget == 0 {
        (spec_done(0), ConsumerActionView::Deliver(Err(no_error_recorded())))
    } else {
        (
            ConsumerStateView { phase: Phase::Calling, attempts_left: budget, last_error: None },
            ConsumerActionView::Call,
        )
    }
}

/// One step of the machine.
///
/// While a call is under way, its outcome is awaited: a quote is delivered at
/// once; a failure uses up one attempt and is delivered if that was the last
/// one, else it is kept and a pause begins. While a pause is under way, its
/// end is awaited: then the next call is made. Every other event changes
/// nothing. Once the result is delivered the state keeps no error.
pub open spec fn spec_step(s: ConsumerStateView, event: ConsumerEventView) -> (
    ConsumerStateView,
    ConsumerActionView,
) {
    match (s.phase, event) {
        (Phase::Calling, ConsumerEventView::Outcome(Ok(q))) => (
            spec_done(s.attempts_left),
            ConsumerActionView::Deliver(Ok(q)),
        ),
        (Phase::Calling, ConsumerEventView::Outcome(Err(e))) => if s.attempts_left <= 1 {
            (spec_done(0), ConsumerActionView::Deliver(Err(e)))
        } else {
            (
                ConsumerStateView {
                    phase: Phase::Delaying,
                    attempts_left: (s.attempts_left - 1) as u8,
                    last_error: Some(e),
                },
                ConsumerActionView::Sleep(RETRY_DELAY_SECS),
            )
        },
        (Phase::Delaying, ConsumerEventView::DelayElapsed) => if s.attempts_left == 0 {
            (spec_done(0), ConsumerActionView::Deliver(Err(exhausted_error(s.last_error))))
        } else {
            (ConsumerStateView { phase: Phase::Calling, ..s }, ConsumerActionView::Call)
        },
        _ => (s, ConsumerActionView::Nothing),
    }
}

impl ConsumerState {
    /// Begins the work on a request that gets `budget` attempts. With no
    /// attempt to make, the fallback error is delivered at once.
    pub fn start_with(budget: u8) -> (r: (ConsumerState, ConsumerAction))
        ensures
            (r.0@, r.1@) == spec_start_with(budget),
            r.1.wf(),
    {
        if budget == 0 {
            (
                ConsumerState { phase: Phase::Done, attempts_left: 0, last_error: None },
                ConsumerAction::Deliver(Err(QuoteRequestError::Other(String::from_str("No Error")))),
            )
        } else {
            (
                ConsumerState { phase: Phase::Calling, attempts_left: budget, last_error: None },
                ConsumerAction::Call,
            )
        }
    }

    /// Begins the work on a request: three attempts, the first one now.
    pub fn start() -> (r: (ConsumerState, ConsumerAction))
        ensures
            (r.0@, r.1@) == spec_start_with(RETRY_BUDGET),
            r.0@.phase == Phase::Calling,
            r.0@.attempts_left == 3,
            r.1@ == ConsumerActionView::Call,
    {
        Self::start_with(RETRY_BUDGET)
    }

    /// Takes one event and says what to do next.
    pub fn step(self, event: ConsumerEvent) -> (r: (ConsumerState, ConsumerAction))
        ensures
            (r.0@, r.1@) == spec_step(self@, event@),
            event.wf() ==> r.1.wf(),
    {
        match (self.phase, event) {
            (Phase::Calling, ConsumerEvent::Outcome(Ok(q))) => (
                ConsumerState {
                    phase: Phase::Done,
                    attempts_left: self.attempts_left,
                    last_error: None,
                },
                ConsumerAction::Deliver(Ok(q)),
            ),
            (Phase::Calling, ConsumerEvent::Outcome(Err(e))) => {
                if self.attempts_left <= 1 {
                    (
                        ConsumerState { phase: Phase::Done, attempts_left: 0, last_error: None },
                        ConsumerAction::Deliver(Err(e)),
                    )
                } else {
                    (
                        ConsumerState {
                            phase: Phase::Delaying,
                            attempts_left: self.attempts_left - 1,
                            last_error: Some(e),
                        },
                        ConsumerAction::Sleep(RETRY_DELAY_SECS),
                    )
                }
            },
            (Phase::Delaying, ConsumerEvent::DelayElapsed) => {
                if self.attempts_left == 0 {
                    let error = match self.last_error {
                        Some(e) => e,
                        None => QuoteRequestError::Other(String::from_str("No Error")),
                    };
                    (
                        ConsumerState { phase: Phase::Done, attempts_left: 0, last_error: None },
                        ConsumerAction::Deliver(Err(error)),
                    )
                } else {
                    (
                        ConsumerState {
                            phase: Phase::Calling,
                            attempts_left: self.attempts_left,
                            last_error: self.last_error,
                        },
                        ConsumerAction::Call,
                    )
                }
            },
            (_, _) => (self, ConsumerAction::Nothing),
        }
    }

    /// Takes what came back from a call, reads it for the asset of the
    /// request, and takes the step for that outcome.
    pub fn on_reply(self, reply: Reply, request: &AssetQuoteRequest) -> (r: (
        ConsumerState,
        ConsumerAction,
    ))
        ensures
            r.1.wf(),
            r.1 matches ConsumerAction::Deliver(Ok(q)) ==> q@.name == request.name@,
            exists|outcome: OutcomeView|
                is_reading(reply, request.name@, request.vs_currency@, outcome) && (r.0@, r.1@)
                    == spec_step(self@, ConsumerEventView::Outcome(outcome)),
    {
        let outcome = read_reply(reply, request);
        proof {
            let witness = outcome_view(outcome);
            assert(is_reading(reply, request.name@, request.vs_currency@, witness));
        }
        self.step(ConsumerEvent::Outcome(outcome))
    }
}

/// Whether `outcome` is a reading of `reply` for the asset `name`: a failed
/// call is a transport failure with the words of the reply; a body gives the
/// quote that stands in it, or the failure for which it holds none.
pub open spec fn is_reading(
    reply: Reply,
    name: Seq<char>,
    currency: Seq<char>,
    outcome: OutcomeView,
) -> bool {
    match reply {
        Reply::TransportFailure(words) => outcome == Err::<QuoteView, ErrorView>(
            ErrorView { kind: QuoteErrorKind::TransportFailure, detail: words@ },
        ),
        Reply::Body(body) => match spec_parse_quote_body(body@, name, currency) {
            Ok(q) => outcome == Ok::<QuoteView, ErrorView>(q),
            Err(f) => outcome matches Err(e) && e.kind == f.kind && (f.detail matches Some(d)
                ==> e.detail == d),
        },
    }
}

/// Reads what came back from a call as the outcome of the attempt.
pub fn read_reply(reply: Reply, request: &AssetQuoteRequest) -> (outcome: Result<
    AssetQuoteResponse,
    QuoteRequestError,
>)
    ensures
        outcome_wf(outcome),
        outcome matches Ok(q) ==> q@.name == request.name@,
        is_reading(reply, request.name@, request.vs_currency@, outcome_view(outcome)),
{
    match reply {
        Reply::TransportFailure(words) => Err(QuoteRequestError::HttpRequest(words)),
        Reply::Body(body) => parse_quote_body(
            body.as_str(),
            request.name.as_str(),
            request.vs_currency.as_str(),
        ),
    }
}

/// The number of deliveries among some actions.
pub open spec fn deliveries(actions: Seq<ConsumerActionView>) -> nat
    decreases actions.len(),
{
    if actions.len() == 0 {
        0
    } else {
        deliveries(actions.drop_last()) + if actions.last() is Deliver {
            1nat
        } else {
            0nat
        }
    }
}

/// The state after a run of events, and the actions that the steps gave, in
/// order.
pub open spec fn spec_run(s: ConsumerStateView, events: Seq<ConsumerEventView>) -> (
    ConsumerStateView,
    Seq<ConsumerActionView>,
)
    decreases events.len(),
{
    if events.len() == 0 {
        (s, Seq::<ConsumerActionView>::empty())
    } else {
        let before = spec_run(s, events.drop_last());
        let last = spec_step(before.0, events.last());
        (last.0, before.1.push(last.1))
    }
}

/// However the events come, a state either has delivered nothing yet, or it
/// is done and has delivered once: the result of a request is sent at most
/// once, and after it nothing more.
pub proof fn lemma_at_most_one_delivery(s: ConsumerStateView, events: Seq<ConsumerEventView>)
    ensures
        deliveries(spec_run(s, events).1) <= 1,
        deliveries(spec_run(s, events).1) == 1 ==> spec_run(s, events).0.phase == Phase::Done,
        s.phase == Phase::Done ==> deliveries(spec_run(s, events).1) == 0,
    decreases events.len(),
{
    if events.len() > 0 {
        lemma_at_most_one_delivery(s, events.drop_last());
        let before = spec_run(s, events.drop_last());
        let last = spec_step(before.0, events.last());
        assert(before.1.push(last.1).drop_last() =~= before.1);
        if s.phase == Phase::Done {
            lemma_done_stays_done(s, events.drop_last());
        }
    }
}

/// A request that is done stays done, whatever comes.
pub proof fn lemma_done_stays_done(s: ConsumerStateView, events: Seq<ConsumerEventView>)
    requires
        s.phase == Phase::Done,
    ensures
        spec_run(s, events).0 == s,
    decreases events.len(),
{
    if events.len() > 0 {
        lemma_done_stays_done(s, events.drop_last());
    }
}

/// From the start of a request on, first action included, the result is
/// delivered at most once, whatever the budget and however the events come.
pub proof fn lemma_delivery_at_most_once(budget: u8, events: Seq<ConsumerEventView>)
    ensures
        deliveries(seq![spec_start_with(budget).1] + spec_run(spec_start_with(budget).0, events).1)
            <= 1,
{
    let first = spec_start_with(budget);
    let rest = spec_run(first.0, events).1;
    lemma_at_most_one_delivery(first.0, events);
    lemma_deliveries_concat(seq![first.1], rest);
    assert(seq![first.1].drop_last() =~= Seq::<ConsumerActionView>::empty());
    assert(deliveries(seq![first.1].drop_last()) == 0);
}

/// Deliveries add up over two runs of actions.
pub proof fn lemma_deliveries_concat(a: Seq<ConsumerActionView>, b: Seq<ConsumerActionView>)
    ensures
        deliveries(a + b) == deliveries(a) + deliveries(b),
    decreases b.len(),
{
    if b.len() == 0 {
        assert(a + b =~= a);
    } else {
        lemma_deliveries_concat(a, b.drop_last());
        assert((a + b).drop_last() =~= a + b.drop_last());
        assert((a + b).last() == b.last());
    }
}

/// Three failures in a row use up a request: the call is made three times,
/// with a pause of one second after the first and after the second failure,
/// and the third failure is what is delivered.
pub proof fn lemma_retry_exhaustion(e1: ErrorView, e2: ErrorView, e3: ErrorView)
    ensures
        ({
            let start = spec_start_with(RETRY_BUDGET);
            let s1 = spec_step(start.0, ConsumerEventView::Outcome(Err(e1)));
            let s2 = spec_step(s1.0, ConsumerEventView::DelayElapsed);
            let s3 = spec_step(s2.0, ConsumerEventView::Outcome(Err(e2)));
            let s4 = spec_step(s3.0, ConsumerEventView::DelayElapsed);
            let s5 = spec_step(s4.0, ConsumerEventView::Outcome(Err(e3)));
            &&& start.1 == ConsumerActionView::Call
            &&& s1.1 == ConsumerActionView::Sleep(1)
            &&& s2.1 == ConsumerActionView::Call
            &&& s3.1 == ConsumerActionView::Sleep(1)
            &&& s4.1 == ConsumerActionView::Call
            &&& s5.1 == ConsumerActionView::Deliver(Err(e3))
            &&& s5.0.phase == Phase::Done
        }),
{
}

/// A failure and then a quote: the quote of the second call is delivered,
/// after one pause, and no third call is made.
pub proof fn lemma_early_success(e1: ErrorView, q: QuoteView, later: ConsumerEventView)
    ensures
        ({
            let start = spec_start_with(RETRY_BUDGET);
            let s1 = spec_step(start.0, ConsumerEventView::Outcome(Err(e1)));
            let s2 = spec_step(s1.0, ConsumerEventView::DelayElapsed);
            let s3 = spec_step(s2.0, ConsumerEventView::Outcome(Ok(q)));
            let s4 = spec_step(s3.0, later);
            &&& start.1 == ConsumerActionView::Call
            &&& s1.1 == ConsumerActionView::Sleep(1)
            &&& s2.1 == ConsumerActionView::Call
            &&& s3.1 == ConsumerActionView::Deliver(Ok(q))
            &&& s3.0.phase == Phase::Done
            &&& s4.1 == ConsumerActionView::Nothing
            &&& s4.0 == s3.0
        }),
{
}

/// Whether a state waits for `event`: a call for its outcome, a pause for
/// its end.
pub open spec fn is_awaited(s: ConsumerStateView, event: ConsumerEventView) -> bool {
    match (s.phase, event) {
        (Phase::Calling, ConsumerEventView::Outcome(_)) => true,
        (Phase::Delaying, ConsumerEventView::DelayElapsed) => true,
        _ => false,
    }
}

/// How many awaited events a request can still take before it is done, at
/// most.
pub open spec fn steps_left(s: ConsumerStateView) -> nat {
    match s.phase {
        Phase::Calling => 2 * s.attempts_left as nat + 1,
        Phase::Delaying => 2 * s.attempts_left as nat + 2,
        Phase::Done => 0,
    }
}

/// Every awaited event brings a request nearer to its end: no request keeps
/// the consumer for more than its budget of attempts, whatever comes back.
pub proof fn lemma_request_ends(s: ConsumerStateView, event: ConsumerEventView)
    requires
        is_awaited(s, event),
    ensures
        steps_left(spec_step(s, event).0) < steps_left(s),
        spec_step(s, event).0.attempts_left <= s.attempts_left,
{
}

/// A failure is delivered only when no attempt is left.
pub proof fn lemma_failure_only_when_exhausted(s: ConsumerStateView, event: ConsumerEventView)
    ensures
        spec_step(s, event).1 matches ConsumerActionView::Deliver(Err(_)) ==> s.attempts_left
            <= 1,
{
}

/// A quote ends the work at once, whichever attempt gave it.
pub proof fn lemma_success_is_delivered(s: ConsumerStateView, q: QuoteView)
    requires
        s.phase == Phase::Calling,
    ensures
        spec_step(s, ConsumerEventView::Outcome(Ok(q))).1 == ConsumerActionView::Deliver(Ok(q)),
        spec_step(s, ConsumerEventView::Outcome(Ok(q))).0.phase == Phase::Done,
{
}

} // verus!
