//! The periodic producer of one asset: on every tick it asks for a quote,
//! waits for the answer, publishes it, and waits out its interval; at fixed
//! checkpoints it looks at its cancellation signal and stops if it has fired.
//!
//! The state machine decides; the program that drives it looks at the signal,
//! submits the request, sleeps and publishes.

use vstd::prelude::*;
use vstd::string::*;
use crate::config::{TickerConfig, TickerView};
use crate::decimal::{format_price, spec_format_price};
use crate::presence::{
    generate_discord_bot_name, generate_discord_bot_status, spec_bot_name, spec_bot_status,
    BotUpdateInfo, UpdateView,
};
use crate::quote::{AssetQuoteRequest, AssetQuoteResponse, QuoteView};

verus! {

/// What a look at the cancellation signal found.
#[derive(Debug, Clone, Copy, PartialEq, Eq, Structural)]
pub enum SignalProbe {
    /// Nothing has been sent.
    Empty,
    /// The stop notification has arrived.
    Fired,
    /// The sender is gone without having sent anything.
    Closed,
}

/// What a checkpoint decides.
#[derive(Debug, Clone, Copy, PartialEq, Eq, Structural)]
pub enum Checkpoint {
    Continue,
    Stop,
}

/// The decision at a checkpoint: go on only while the signal is untouched.
pub open spec fn spec_check_cancellation(probe: SignalProbe) -> Checkpoint {
    if probe == SignalProbe::Empty {
        Checkpoint::Continue
    } else {
        Checkpoint::Stop
    }
}

/// The decision at a checkpoint.
#[verifier::when_used_as_spec(spec_check_cancellation)]
pub fn check_cancellation(probe: SignalProbe) -> (decision: Checkpoint)
    ensures
        decision == spec_check_cancellation(probe),
{
    match probe {
        SignalProbe::Empty => Checkpoint::Continue,
        _ => Checkpoint::Stop,
    }
}

/// The four states of a producer.
#[derive(Debug, Clone, Copy, PartialEq, Eq, Structural)]
pub enum Stage {
    WaitingToTick,
    AwaitingResponse,
    Publishing,
    Stopped,
}

/// Where in its cycle a producer stands: its state, and what it waits for.
#[derive(Debug, Clone, Copy, PartialEq, Eq, Structural)]
pub enum ProducerPhase {
    /// At the top of a cycle, waiting for a look at the signal.
    TickCheck,
    /// The request is submitted; waiting for the answer.
    AwaitingResponse,
    /// After a failed request, sleeping for one interval.
    Backoff,
    /// A quote is formatted; waiting for a look at the signal.
    PublishCheck,
    /// The update is being handed to the presence.
    Sending,
    /// The update is handed over; waiting for a look at the signal.
    SettleCheck,
    /// Waiting out the interval, or for the signal, whichever comes first.
    IntervalWait,
    /// The producer has stopped.
    Stopped,
}

impl ProducerPhase {
    /// The state that a phase belongs to.
    pub open spec fn spec_stage(self) -> Stage {
        match self {
            ProducerPhase::AwaitingResponse => Stage::AwaitingResponse,
            ProducerPhase::PublishCheck | ProducerPhase::Sending => Stage::Publishing,
            ProducerPhase::Stopped => Stage::Stopped,
            _ => Stage::WaitingToTick,
        }
    }

    /// The state that a phase belongs to.
    #[verifier::when_used_as_spec(spec_stage)]
    pub fn stage(self) -> (stage: Stage)
        ensures
            stage == self.spec_stage(),
    {
        match self {
            ProducerPhase::AwaitingResponse => Stage::AwaitingResponse,
            ProducerPhase::PublishCheck => Stage::Publishing,
            ProducerPhase::Sending => Stage::Publishing,
            ProducerPhase::Stopped => Stage::Stopped,
            _ => Stage::WaitingToTick,
        }
    }
}

/// The state of a producer.
#[derive(Debug, Clone, PartialEq, Eq)]
pub struct ProducerState {
    pub phase: ProducerPhase,
    /// The update that waits for the checkpoint before publishing.
    pub pending: Option<BotUpdateInfo>,
}

/// What the driver reports back.
#[derive(Debug, Clone, PartialEq, Eq)]
pub enum ProducerEvent {
    /// A look at the cancellation signal.
    Signal(SignalProbe),
    /// The request queue is closed: the request could not be submitted.
    SubmitFailed,
    /// The response channel closed without a value.
    ResponseClosed,
    /// The request failed.
    Failed,
    /// A quote arrived; `change_text` is its change, written for display.
    Quote { response: AssetQuoteResponse, change_text: String },
    /// The update has been handed to the presence, or could not be.
    Published,
    /// A plain sleep has ended.
    Elapsed,
    /// The wait for the interval or the signal has ended: whether the timer
    /// ran out, and whether the signal is ready.
    Raced { timer: bool, signal: bool },
}

/// What the driver is to do next.
#[derive(Debug, Clone, PartialEq, Eq)]
pub enum ProducerAction {
    /// Look at the cancellation signal and report what is there.
    Probe,
    /// Submit the request with a fresh response channel, wait for the answer
    /// and report it.
    Submit(AssetQuoteRequest),
    /// Sleep for so many seconds.
    Sleep(u64),
    /// Hand the update to the presence; a failure is logged, not retried.
    Publish(BotUpdateInfo),
    /// Wait for so many seconds or for the signal, whichever comes first.
    WaitOrCancel(u64),
    /// End the task.
    Stop,
    /// Nothing: the event was not awaited.
    Nothing,
}

/// What a request holds.
pub struct RequestView {
    pub name: Seq<char>,
    pub vs_currency: Seq<char>,
}

impl View for AssetQuoteRequest {
    type V = RequestView;

    open spec fn view(&self) -> RequestView {
        RequestView { name: self.name@, vs_currency: self.vs_currency@ }
    }
}

/// What a producer's state holds.
pub struct ProducerStateView {
    pub phase: ProducerPhase,
    pub pending: Option<UpdateView>,
}

/// What an event holds.
pub enum ProducerEventView {
    Signal(SignalProbe),
    SubmitFailed,
    ResponseClosed,
    Failed,
    Quote { response: QuoteView, change_text: Seq<char> },
    Published,
    Elapsed,
    Raced { timer: bool, signal: bool },
}

/// What an action holds.
pub enum ProducerActionView {
    Probe,
    Submit(RequestView),
    Sleep(u64),
    Publish(UpdateView),
    WaitOrCancel(u64),
    Stop,
    Nothing,
}

impl View for ProducerState {
    type V = ProducerStateView;

    open spec fn view(&self) -> ProducerStateView {
        ProducerStateView {
            phase: self.phase,
            pending: match self.pending {
                Some(update) => Some(update@),
                None => None,
            },
        }
    }
}

impl View for ProducerEvent {
    type V = ProducerEventView;

    open spec fn view(&self) -> ProducerEventView {
        match self {
            ProducerEvent::Signal(probe) => ProducerEventView::Signal(*probe),
            ProducerEvent::SubmitFailed => ProducerEventView::SubmitFailed,
            ProducerEvent::ResponseClosed => ProducerEventView::ResponseClosed,
            ProducerEvent::Failed => ProducerEventView::Failed,
            ProducerEvent::Quote { response, change_text } => ProducerEventView::Quote {
                response: response@,
                change_text: change_text@,
            },
            ProducerEvent::Published => ProducerEventView::Published,
            ProducerEvent::Elapsed => ProducerEventView::Elapsed,
            ProducerEvent::Raced { timer, signal } => ProducerEventView::Raced {
                timer: *timer,
                signal: *signal,
            },
        }
    }
}

impl View for ProducerAction {
    type V = ProducerActionView;

    open spec fn view(&self) -> ProducerActionView {
        match self {
            ProducerAction::Probe => ProducerActionView::Probe,
            ProducerAction::Submit(request) => ProducerActionView::Submit(request@),
            ProducerAction::Sleep(secs) => ProducerActionView::Sleep(*secs),
            ProducerAction::Publish(update) => ProducerActionView::Publish(update@),
            ProducerAction::WaitOrCancel(secs) => ProducerActionView::WaitOrCancel(*secs),
            ProducerAction::Stop => ProducerActionView::Stop,
            ProducerAction::Nothing => ProducerActionView::Nothing,
        }
    }
}

impl ProducerEvent {
    /// Whether the quote in the event, if there is one, is well formed.
    pub open spec fn wf(&self) -> bool {
        self matches ProducerEvent::Quote { response, .. } ==> response.wf()
    }
}

/// The currency in which prices are asked.
pub open spec fn quote_currency() -> Seq<char> {
    "usd"@
}

/// The request that a producer submits on a tick.
pub open spec fn spec_tick_request(config: TickerView) -> RequestView {
    RequestView { name: config.name, vs_currency: quote_currency() }
}

/// The update that a quote is published as: the price with the configured
/// number of decimals behind a dollar sign, and the change before the ticker.
pub open spec fn spec_update(response: QuoteView, change_text: Seq<char>, config: TickerView) -> UpdateView {
    UpdateView {
        name: spec_bot_name(spec_format_price(response.price, config.decimals), "$"@, ""@),
        status: spec_bot_status(change_text, config.ticker),
    }
}

/// A producer that has stopped.
pub open spec fn spec_stopped() -> (ProducerStateView, ProducerActionView) {
    (ProducerStateView { phase: ProducerPhase::Stopped, pending: None }, ProducerActionView::Stop)
}

/// A producer at the top of a cycle.
pub open spec fn spec_tick() -> (ProducerStateView, ProducerActionView) {
    (ProducerStateView { phase: ProducerPhase::TickCheck, pending: None }, ProducerActionView::Probe)
}

/// Where a producer goes from a checkpoint at which the signal was untouched.
pub open spec fn spec_pass_checkpoint(s: ProducerStateView, config: TickerView) -> (
    ProducerStateView,
    ProducerActionView,
) {
    match s.phase {
        ProducerPhase::TickCheck => (
            ProducerStateView { phase: ProducerPhase::AwaitingResponse, pending: None },
            ProducerActionView::Submit(spec_tick_request(config)),
        ),
        ProducerPhase::PublishCheck => match s.pending {
            Some(update) => (
                ProducerStateView { phase: ProducerPhase::Sending, pending: None },
                ProducerActionView::Publish(update),
            ),
            None => spec_tick(),
        },
        _ => (
            ProducerStateView { phase: ProducerPhase::IntervalWait, pending: None },
            ProducerActionView::WaitOrCancel(config.frequency),
        ),
    }
}

/// Whether a phase is a checkpoint: it waits for a look at the signal.
pub open spec fn is_checkpoint(phase: ProducerPhase) -> bool {
    phase == ProducerPhase::TickCheck || phase == ProducerPhase::PublishCheck || phase
        == ProducerPhase::SettleCheck
}

/// One step of the machine.
///
/// At a checkpoint a signal that has fired, or whose sender is gone, stops
/// the producer; else the cycle goes on: the request is submitted, the update
/// is published, or the interval is waited out. While the answer is awaited:
/// a closed queue stops the producer; a closed response channel starts the
/// next cycle at once; a failure is followed by a sleep of one interval; a
/// quote is formatted and kept for the checkpoint before publishing. While
/// the interval is waited out, a ready signal stops the producer, also where
/// the timer has run out too. Every other event changes nothing.
pub open spec fn spec_step(s: ProducerStateView, event: ProducerEventView, config: TickerView) -> (
    ProducerStateView,
    ProducerActionView,
) {
    match event {
        ProducerEventView::Signal(probe) if is_checkpoint(s.phase) => {
            if spec_check_cancellation(probe) == Checkpoint::Stop {
                spec_stopped()
            } else {
                spec_pass_checkpoint(s, config)
            }
        },
        ProducerEventView::SubmitFailed if s.phase == ProducerPhase::AwaitingResponse => {
            spec_stopped()
        },
        ProducerEventView::ResponseClosed if s.phase == ProducerPhase::AwaitingResponse => {
            spec_tick()
        },
        ProducerEventView::Failed if s.phase == ProducerPhase::AwaitingResponse => (
            ProducerStateView { phase: ProducerPhase::Backoff, pending: None },
            ProducerActionView::Sleep(config.frequency),
        ),
        ProducerEventView::Quote { response, change_text } if s.phase
            == ProducerPhase::AwaitingResponse => (
            ProducerStateView {
                phase: ProducerPhase::PublishCheck,
                pending: Some(spec_update(response, change_text, config)),
            },
            ProducerActionView::Probe,
        ),
        ProducerEventView::Published if s.phase == ProducerPhase::Sending => (
            ProducerStateView { phase: ProducerPhase::SettleCheck, pending: None },
            ProducerActionView::Probe,
        ),
        ProducerEventView::Elapsed if s.phase == ProducerPhase::Backoff => spec_tick(),
        ProducerEventView::Raced { timer, signal } if s.phase == ProducerPhase::IntervalWait
            && (timer || signal) => {
            if signal {
                spec_stopped()
            } else {
                spec_tick()
            }
        },
        _ => (s, ProducerActionView::Nothing),
    }
}

/// The update that a quote is published as.
pub fn build_update(response: &AssetQuoteResponse, change_text: &str, config: &TickerConfig) -> (update:
    BotUpdateInfo)
    requires
        response.wf(),
    ensures
        update@ == spec_update(response@, change_text@, config@),
{
    let price_text = format_price(&response.price_usd, config.decimals);
    BotUpdateInfo {
        name: generate_discord_bot_name(price_text.as_str(), "$", ""),
        status: generate_discord_bot_status(change_text, config.ticker.as_str()),
    }
}

impl ProducerState {
    /// A producer at its start: the first tick is due at once.
    pub fn start() -> (r: (ProducerState, ProducerAction))
        ensures
            (r.0@, r.1@) == spec_tick(),
    {
        (ProducerState { phase: ProducerPhase::TickCheck, pending: None }, ProducerAction::Probe)
    }

    /// Takes one event and says what to do next.
    pub fn step(self, event: ProducerEvent, config: &TickerConfig) -> (r: (
        ProducerState,
        ProducerAction,
    ))
        requires
            event.wf(),
        ensures
            (r.0@, r.1@) == spec_step(self@, event@, config@),
    {
        let stopped = (
            ProducerState { phase: ProducerPhase::Stopped, pending: None },
            ProducerAction::Stop,
        );
        let tick = (
            ProducerState { phase: ProducerPhase::TickCheck, pending: None },
            ProducerAction::Probe,
        );
        match (self.phase, event) {
            (ProducerPhase::TickCheck, ProducerEvent::Signal(probe)) => {
                match check_cancellation(probe) {
                    Checkpoint::Stop => stopped,
                    Checkpoint::Continue => (
                        ProducerState { phase: ProducerPhase::AwaitingResponse, pending: None },
                        ProducerAction::Submit(
                            AssetQuoteRequest {
                                name: config.name.clone(),
                                vs_currency: String::from_str("usd"),
                            },
                        ),
                    ),
                }
            },
            (ProducerPhase::PublishCheck, ProducerEvent::Signal(probe)) => {
                match check_cancellation(probe) {
                    Checkpoint::Stop => stopped,
                    Checkpoint::Continue => match self.pending {
                        Some(update) => (
                            ProducerState { phase: ProducerPhase::Sending, pending: None },
                            ProducerAction::Publish(update),
                        ),
                        None => tick,
                    },
                }
            },
            (ProducerPhase::SettleCheck, ProducerEvent::Signal(probe)) => {
                match check_cancellation(probe) {
                    Checkpoint::Stop => stopped,
                    Checkpoint::Continue => (
                        ProducerState { phase: ProducerPhase::IntervalWait, pending: None },
                        ProducerAction::WaitOrCancel(config.frequency),
                    ),
                }
            },
            (ProducerPhase::AwaitingResponse, ProducerEvent::SubmitFailed) => stopped,
            (ProducerPhase::AwaitingResponse, ProducerEvent::ResponseClosed) => tick,
            (ProducerPhase::AwaitingResponse, ProducerEvent::Failed) => (
                ProducerState { phase: ProducerPhase::Backoff, pending: None },
                ProducerAction::Sleep(config.frequency),
            ),
            (ProducerPhase::AwaitingResponse, ProducerEvent::Quote { response, change_text }) => {
                let update = build_update(&response, change_text.as_str(), config);
                (
                    ProducerState { phase: ProducerPhase::PublishCheck, pending: Some(update) },
                    ProducerAction::Probe,
                )
            },
            (ProducerPhase::Sending, ProducerEvent::Published) => (
                ProducerState { phase: ProducerPhase::SettleCheck, pending: None },
                ProducerAction::Probe,
            ),
            (ProducerPhase::Backoff, ProducerEvent::Elapsed) => tick,
            (ProducerPhase::IntervalWait, ProducerEvent::Raced { timer, signal }) => {
                if signal {
                    stopped
                } else if timer {
                    tick
                } else {
                    (self, ProducerAction::Nothing)
                }
            },
            (_, _) => (self, ProducerAction::Nothing),
        }
    }
}

/// A producer that has stopped stays stopped and asks for nothing more.
pub proof fn lemma_stopped_is_final(s: ProducerStateView, event: ProducerEventView, config: TickerView)
    requires
        s.phase == ProducerPhase::Stopped,
    ensures
        spec_step(s, event, config) == (s, ProducerActionView::Nothing),
{
}

/// A signal that is ready while the interval is waited out stops the
/// producer at once, whether or not the timer has run out as well.
pub proof fn lemma_cancel_ends_interval(s: ProducerStateView, timer: bool, config: TickerView)
    requires
        s.phase == ProducerPhase::IntervalWait,
    ensures
        spec_step(s, ProducerEventView::Raced { timer, signal: true }, config) == spec_stopped(),
        spec_step(s, ProducerEventView::Raced { timer, signal: true }, config).0.phase.spec_stage()
            == Stage::Stopped,
{
}

/// At each of the three checkpoints a signal that is not untouched stops the
/// producer, and an untouched one never does.
pub proof fn lemma_checkpoint_obeys_signal(
    s: ProducerStateView,
    probe: SignalProbe,
    config: TickerView,
)
    requires
        is_checkpoint(s.phase),
    ensures
        probe != SignalProbe::Empty ==> spec_step(s, ProducerEventView::Signal(probe), config)
            == spec_stopped(),
        probe == SignalProbe::Empty ==> spec_step(
            s,
            ProducerEventView::Signal(probe),
            config,
        ).0.phase != ProducerPhase::Stopped,
{
}

/// A producer stops only at a checkpoint, when its request cannot be
/// submitted, or when the signal is ready while it waits out the interval.
pub proof fn lemma_stops_only_when_told(
    s: ProducerStateView,
    event: ProducerEventView,
    config: TickerView,
)
    requires
        s.phase != ProducerPhase::Stopped,
        spec_step(s, event, config).0.phase == ProducerPhase::Stopped,
    ensures
        spec_step(s, event, config).1 == ProducerActionView::Stop,
        ({
            ||| (is_checkpoint(s.phase) && (event matches ProducerEventView::Signal(probe) && probe
                != SignalProbe::Empty))
            ||| (s.phase == ProducerPhase::AwaitingResponse && event
                == ProducerEventView::SubmitFailed)
            ||| (s.phase == ProducerPhase::IntervalWait && (event matches ProducerEventView::Raced {
                signal,
                ..
            } && signal))
        }),
{
}

/// A request is submitted only from the checkpoint at the top of a cycle, and
/// the producer then waits for its answer: it never has two requests under
/// way.
pub proof fn lemma_one_request_at_a_time(
    s: ProducerStateView,
    event: ProducerEventView,
    config: TickerView,
)
    requires
        spec_step(s, event, config).1 is Submit,
    ensures
        s.phase == ProducerPhase::TickCheck,
        spec_step(s, event, config).0.phase == ProducerPhase::AwaitingResponse,
{
}

/// After a failed request the producer sleeps for one full interval; after a
/// response channel that closed without a value it does not sleep at all.
pub proof fn lemma_backoff_only_after_failure(s: ProducerStateView, config: TickerView)
    requires
        s.phase == ProducerPhase::AwaitingResponse,
    ensures
        spec_step(s, ProducerEventView::Failed, config).1 == ProducerActionView::Sleep(
            config.frequency,
        ),
        spec_step(s, ProducerEventView::ResponseClosed, config) == spec_tick(),
{
}

/// The request of a tick names the asset of the producer that submits it.
pub proof fn lemma_request_names_own_asset(s: ProducerStateView, event: ProducerEventView, config: TickerView)
    ensures
        spec_step(s, event, config).1 matches ProducerActionView::Submit(request) ==> request.name
            == config.name,
{
}

} // verus!
