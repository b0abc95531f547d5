//! Configuration values of the ticker, and the check on a bot token.

use vstd::prelude::*;
use vstd::string::*;
use vstd::utf8::is_ascii_chars;

verus! {

/// What one tracked asset is configured with.
#[derive(Debug, Clone)]
pub struct TickerConfig {
    /// Ticker symbol, shown in the presence status.
    pub ticker: String,
    /// Identifier of the asset at the pricing service.
    pub name: String,
    /// Whether the asset is a cryptocurrency.
    pub crypto: bool,
    /// Seconds between two quotes.
    pub frequency: u64,
    /// Number of decimal places shown of a price.
    pub decimals: u8,
    /// Credential of the presence bot of this asset.
    pub discord_bot_token: String,
}

/// What the configuration of one asset holds.
pub struct TickerView {
    pub ticker: Seq<char>,
    pub name: Seq<char>,
    pub crypto: bool,
    pub frequency: u64,
    pub decimals: u8,
    pub discord_bot_token: Seq<char>,
}

impl View for TickerConfig {
    type V = TickerView;

    open spec fn view(&self) -> TickerView {
        TickerView {
            ticker: self.ticker@,
            name: self.name@,
            crypto: self.crypto,
            frequency: self.frequency,
            decimals: self.decimals,
            discord_bot_token: self.discord_bot_token@,
        }
    }
}

/// The configuration of the whole process.
#[derive(Debug, Clone)]
pub struct Config {
    /// Key for the pricing service; empty when there is none.
    pub coingecko_api_key: String,
    /// One entry for each tracked asset.
    pub tickers: Vec<TickerConfig>,
}

/// Whether `c` is one of the white-space characters of the ASCII range:
/// the controls from tab to carriage return, and the space.
pub open spec fn is_ascii_blank(c: char) -> bool {
    ('\t' <= c && c <= '\r') || c == ' '
}

/// A token is valid when it is made of ASCII characters only and at least one
/// of them is not white space.
pub open spec fn token_valid(token: Seq<char>) -> bool {
    &&& is_ascii_chars(token)
    &&& exists|i: int| 0 <= i < token.len() && !is_ascii_blank(#[trigger] token[i])
}

/// Tells whether a bot token can be used: it is ASCII, and not empty once the
/// white space around it is taken off.
pub fn is_bot_token_valid(bot_token: &str) -> (valid: bool)
    ensures
        valid == token_valid(bot_token@),
{
    if !bot_token.is_ascii() {
        return false;
    }
    let n: usize = bot_token.unicode_len();
    let mut i: usize = 0;
    while i < n
        invariant
            i <= n,
            n == bot_token@.len(),
            bot_token.is_ascii(),
            forall|j: int| 0 <= j < i ==> is_ascii_blank(#[trigger] bot_token@[j]),
        decreases n - i,
    {
        let b: u8 = bot_token.get_ascii(i);
        let blank: bool = (9 <= b && b <= 13) || b == 32;
        assert(blank == is_ascii_blank(bot_token@[i as int]));
        if !blank {
            return true;
        }
        i = i + 1;
    }
    false
}

} // verus!
