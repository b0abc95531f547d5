use ticker_bot::config::{is_bot_token_valid, TickerConfig};
use ticker_bot::decimal::Decimal;
use ticker_bot::guilds::{Guild, GuildListing, ListingAction, ListingEvent, ListingPhase};
use ticker_bot::presence::{generate_discord_bot_name, generate_discord_bot_status, BotUpdateInfo};
use ticker_bot::producer::{
    build_update, check_cancellation, Checkpoint, ProducerAction, ProducerEvent, ProducerPhase,
    ProducerState, SignalProbe, Stage,
};
use ticker_bot::quote::{AssetQuoteRequest, AssetQuoteResponse, PercentChange};

fn config() -> TickerConfig {
    TickerConfig {
        ticker: "BTC".to_string(),
        name: "bitcoin".to_string(),
        crypto: true,
        frequency: 60,
        decimals: 2,
        discord_bot_token: "token".to_string(),
    }
}

fn quote(price: &str) -> AssetQuoteResponse {
    AssetQuoteResponse {
        name: "bitcoin".to_string(),
        price_usd: Decimal::parse(price).unwrap(),
        price_change_24h: PercentChange { bits: 1.884f64.to_bits() },
    }
}

fn awaiting() -> ProducerState {
    let (state, _) = ProducerState::start();
    let (state, _) = state.step(ProducerEvent::Signal(SignalProbe::Empty), &config());
    state
}

fn waiting_out_interval() -> ProducerState {
    let state = awaiting();
    let event = ProducerEvent::Quote { response: quote("1"), change_text: "+0.00%".to_string() };
    let (state, _) = state.step(event, &config());
    let (state, _) = state.step(ProducerEvent::Signal(SignalProbe::Empty), &config());
    let (state, _) = state.step(ProducerEvent::Published, &config());
    let (state, _) = state.step(ProducerEvent::Signal(SignalProbe::Empty), &config());
    state
}

#[test]
fn test_generate_discord_bot_name() {
    assert_eq!("$1234.56", generate_discord_bot_name("1234.56", "$", ""));
    assert_eq!("$1234.56   space  ", generate_discord_bot_name("1234.56", "$", "  space  "));
    assert_eq!("$1234.56 USD", generate_discord_bot_name("1234.56", "$", "USD"));
    assert_eq!("1234.56 USD", generate_discord_bot_name("1234.56", "", "USD"));
    assert_eq!("1234.56", generate_discord_bot_name("1234.56", "", ""));
}

#[test]
fn test_generate_discord_bot_status() {
    assert_eq!("+12.34% | TICKER", generate_discord_bot_status("+12.34", "TICKER"));
    assert_eq!("-0.12% | TICKER", generate_discord_bot_status("-0.12", "TICKER"));
    assert_eq!("+0.00% | TICKER", generate_discord_bot_status("+0.00", "TICKER"));
}

#[test]
fn token_must_be_ascii_and_not_blank() {
    assert!(is_bot_token_valid("abc.def"));
    assert!(is_bot_token_valid("  abc  "));
    assert!(!is_bot_token_valid(""));
    assert!(!is_bot_token_valid("   "));
    assert!(!is_bot_token_valid(" \t\r\n\u{b}\u{c}"));
    assert!(!is_bot_token_valid("tok\u{e9}n"));
    assert!(!is_bot_token_valid("\u{a0}"));
    assert!(is_bot_token_valid("\u{1c}"));
}

#[test]
fn signal_decides_at_a_checkpoint() {
    assert_eq!(check_cancellation(SignalProbe::Empty), Checkpoint::Continue);
    assert_eq!(check_cancellation(SignalProbe::Fired), Checkpoint::Stop);
    assert_eq!(check_cancellation(SignalProbe::Closed), Checkpoint::Stop);
}

#[test]
fn update_is_written_from_quote_and_config() {
    let update = build_update(&quote("65761.129"), "+1.88%", &config());
    assert_eq!(
        update,
        BotUpdateInfo { name: "$65761.13".to_string(), status: "+1.88%% | BTC".to_string() }
    );
}

#[test]
fn producer_ticks_at_once() {
    let (state, action) = ProducerState::start();
    assert_eq!(state.phase.stage(), Stage::WaitingToTick);
    assert_eq!(action, ProducerAction::Probe);
    let (state, action) = state.step(ProducerEvent::Signal(SignalProbe::Empty), &config());
    assert_eq!(state.phase.stage(), Stage::AwaitingResponse);
    assert_eq!(
        action,
        ProducerAction::Submit(AssetQuoteRequest {
            name: "bitcoin".to_string(),
            vs_currency: "usd".to_string()
        })
    );
}

#[test]
fn producer_stops_when_cancelled_before_the_tick() {
    let (state, _) = ProducerState::start();
    let (state, action) = state.step(ProducerEvent::Signal(SignalProbe::Fired), &config());
    assert_eq!(state.phase, ProducerPhase::Stopped);
    assert_eq!(action, ProducerAction::Stop);
    let (state, _) = ProducerState::start();
    let (state, action) = state.step(ProducerEvent::Signal(SignalProbe::Closed), &config());
    assert_eq!(state.phase.stage(), Stage::Stopped);
    assert_eq!(action, ProducerAction::Stop);
}

#[test]
fn producer_stops_when_the_queue_is_closed() {
    let (state, action) = awaiting().step(ProducerEvent::SubmitFailed, &config());
    assert_eq!(state.phase, ProducerPhase::Stopped);
    assert_eq!(action, ProducerAction::Stop);
}

#[test]
fn producer_tries_again_at_once_when_the_response_channel_closes() {
    let (state, action) = awaiting().step(ProducerEvent::ResponseClosed, &config());
    assert_eq!(state.phase, ProducerPhase::TickCheck);
    assert_eq!(action, ProducerAction::Probe);
}

#[test]
fn producer_waits_one_interval_after_a_failure() {
    let (state, action) = awaiting().step(ProducerEvent::Failed, &config());
    assert_eq!(state.phase, ProducerPhase::Backoff);
    assert_eq!(state.phase.stage(), Stage::WaitingToTick);
    assert_eq!(action, ProducerAction::Sleep(60));
    let (state, action) = state.step(ProducerEvent::Elapsed, &config());
    assert_eq!(state.phase, ProducerPhase::TickCheck);
    assert_eq!(action, ProducerAction::Probe);
}

#[test]
fn producer_publishes_a_quote_and_waits_out_the_interval() {
    let event = ProducerEvent::Quote { response: quote("65761"), change_text: "+1.88%".to_string() };
    let (state, action) = awaiting().step(event, &config());
    assert_eq!(state.phase.stage(), Stage::Publishing);
    assert_eq!(action, ProducerAction::Probe);
    let (state, action) = state.step(ProducerEvent::Signal(SignalProbe::Empty), &config());
    assert_eq!(state.phase.stage(), Stage::Publishing);
    assert_eq!(
        action,
        ProducerAction::Publish(BotUpdateInfo {
            name: "$65761".to_string(),
            status: "+1.88%% | BTC".to_string()
        })
    );
    let (state, action) = state.step(ProducerEvent::Published, &config());
    assert_eq!(state.phase, ProducerPhase::SettleCheck);
    assert_eq!(action, ProducerAction::Probe);
    let (state, action) = state.step(ProducerEvent::Signal(SignalProbe::Empty), &config());
    assert_eq!(state.phase, ProducerPhase::IntervalWait);
    assert_eq!(action, ProducerAction::WaitOrCancel(60));
    let (state, action) = state.step(ProducerEvent::Raced { timer: true, signal: false }, &config());
    assert_eq!(state.phase, ProducerPhase::TickCheck);
    assert_eq!(action, ProducerAction::Probe);
}

#[test]
fn producer_does_not_publish_once_cancelled() {
    let event = ProducerEvent::Quote { response: quote("65761"), change_text: "+1.88%".to_string() };
    let (state, _) = awaiting().step(event, &config());
    let (state, action) = state.step(ProducerEvent::Signal(SignalProbe::Fired), &config());
    assert_eq!(state.phase, ProducerPhase::Stopped);
    assert_eq!(state.pending, None);
    assert_eq!(action, ProducerAction::Stop);
}

#[test]
fn cancellation_ends_the_interval_wait() {
    let (state, action) =
        waiting_out_interval().step(ProducerEvent::Raced { timer: false, signal: true }, &config());
    assert_eq!(state.phase, ProducerPhase::Stopped);
    assert_eq!(action, ProducerAction::Stop);
}

#[test]
fn cancellation_wins_over_the_timer() {
    let (state, action) =
        waiting_out_interval().step(ProducerEvent::Raced { timer: true, signal: true }, &config());
    assert_eq!(state.phase, ProducerPhase::Stopped);
    assert_eq!(action, ProducerAction::Stop);
}

#[test]
fn race_that_nobody_won_changes_nothing() {
    let (state, action) =
        waiting_out_interval().step(ProducerEvent::Raced { timer: false, signal: false }, &config());
    assert_eq!(state.phase, ProducerPhase::IntervalWait);
    assert_eq!(action, ProducerAction::Nothing);
}

#[test]
fn stopped_producer_stays_stopped() {
    let (state, _) = awaiting().step(ProducerEvent::SubmitFailed, &config());
    let (state, action) = state.step(ProducerEvent::Signal(SignalProbe::Empty), &config());
    assert_eq!(state.phase, ProducerPhase::Stopped);
    assert_eq!(action, ProducerAction::Nothing);
    let (state, action) = state.step(ProducerEvent::Elapsed, &config());
    assert_eq!(state.phase, ProducerPhase::Stopped);
    assert_eq!(action, ProducerAction::Nothing);
}

#[test]
fn event_that_is_not_awaited_is_ignored() {
    let (state, action) = awaiting().step(ProducerEvent::Published, &config());
    assert_eq!(state.phase, ProducerPhase::AwaitingResponse);
    assert_eq!(action, ProducerAction::Nothing);
}

fn page(from: u64, len: u64) -> Vec<Guild> {
    (from..from + len).map(|id| Guild { id, name: format!("guild {}", id) }).collect()
}

#[test]
fn listing_ends_with_a_short_page() {
    let (state, action) = GuildListing::start();
    assert_eq!(action, ListingAction::Fetch { after: None, limit: 100 });
    let (state, action) = state.step(ListingEvent::Page(page(1, 3)));
    assert_eq!(state.phase, ListingPhase::Finished);
    assert_eq!(action, ListingAction::Done(page(1, 3)));
}

#[test]
fn listing_asks_for_the_page_after_a_full_one() {
    let (state, _) = GuildListing::start();
    let (state, action) = state.step(ListingEvent::Page(page(1, 100)));
    assert_eq!(state.phase, ListingPhase::Fetching);
    assert_eq!(action, ListingAction::Fetch { after: Some(100), limit: 100 });
    let (state, action) = state.step(ListingEvent::Page(page(101, 100)));
    assert_eq!(action, ListingAction::Fetch { after: Some(200), limit: 100 });
    let (state, action) = state.step(ListingEvent::Page(Vec::new()));
    assert_eq!(state.phase, ListingPhase::Finished);
    assert_eq!(action, ListingAction::Done(page(1, 200)));
}

#[test]
fn listing_gives_up_after_three_failures() {
    let (state, _) = GuildListing::start();
    let (state, action) = state.step(ListingEvent::Failed);
    assert_eq!(action, ListingAction::Sleep(3));
    let (state, action) = state.step(ListingEvent::Elapsed);
    assert_eq!(action, ListingAction::Fetch { after: None, limit: 100 });
    let (state, _) = state.step(ListingEvent::Page(page(1, 100)));
    let (state, action) = state.step(ListingEvent::Failed);
    assert_eq!(action, ListingAction::Sleep(3));
    let (state, action) = state.step(ListingEvent::Elapsed);
    assert_eq!(action, ListingAction::Fetch { after: Some(100), limit: 100 });
    let (state, _) = state.step(ListingEvent::Failed);
    let (state, action) = state.step(ListingEvent::Elapsed);
    assert_eq!(action, ListingAction::GiveUp);
    assert_eq!(state.phase, ListingPhase::Finished);
    let (_, action) = state.step(ListingEvent::Page(page(1, 1)));
    assert_eq!(action, ListingAction::Nothing);
}
