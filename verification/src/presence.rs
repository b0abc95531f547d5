//! The display name and the status line that a quote is published as.

use vstd::prelude::*;
use vstd::string::*;

verus! {

/// What the presence of one bot is set to.
#[derive(Debug, Clone, PartialEq, Eq)]
pub struct BotUpdateInfo {
    /// The display name: the price with its currency symbol.
    pub name: String,
    /// The status line: the change and the ticker.
    pub status: String,
}

/// What an update holds.
pub struct UpdateView {
    pub name: Seq<char>,
    pub status: Seq<char>,
}

impl View for BotUpdateInfo {
    type V = UpdateView;

    open spec fn view(&self) -> UpdateView {
        UpdateView { name: self.name@, status: self.status@ }
    }
}

/// The display name: prefix and price, and the suffix after a space where
/// there is one.
pub open spec fn spec_bot_name(price: Seq<char>, prefix: Seq<char>, suffix: Seq<char>) -> Seq<
    char,
> {
    if suffix.len() == 0 {
        prefix + price
    } else {
        prefix + price + " "@ + suffix
    }
}

/// The status line: the change, a percent sign, a bar and the ticker.
pub open spec fn spec_bot_status(change: Seq<char>, ticker: Seq<char>) -> Seq<char> {
    change + "% | "@ + ticker
}

/// Writes the display name of a bot from a formatted price and the symbols
/// of the currency.
pub fn generate_discord_bot_name(
    formatted_price: &str,
    vs_currency_symbol_prefix: &str,
    vs_currency_symbol_suffix: &str,
) -> (name: String)
    ensures
        name@ == spec_bot_name(
            formatted_price@,
            vs_currency_symbol_prefix@,
            vs_currency_symbol_suffix@,
        ),
{
    let mut name = String::from_str(vs_currency_symbol_prefix);
    name.append(formatted_price);
    if vs_currency_symbol_suffix.unicode_len() == 0 {
        return name;
    }
    name.append(" ");
    name.append(vs_currency_symbol_suffix);
    name
}

/// Writes the status line of a bot from a formatted change and the ticker.
pub fn generate_discord_bot_status(formatted_price_change: &str, ticker: &str) -> (status: String)
    ensures
        status@ == spec_bot_status(formatted_price_change@, ticker@),
{
    let mut status = String::from_str(formatted_price_change);
    status.append("% | ");
    status.append(ticker);
    status
}

} // verus!
