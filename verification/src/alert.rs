//! Assembly of the alert a notified event carries: every text of the
//! webhook payload, built exactly from the decision's facts. The caller
//! supplies the two texts the crate cannot derive — the spend formatted in
//! SOL and the current timestamp — and the delivery itself happens outside
//! the crate.

use crate::filter::Decision;
use vstd::prelude::*;
use vstd::string::StringExecFns;

verus! {

/// The embed color of an accepted-launch alert.
pub const ALERT_COLOR: u32 = 5763719;

/// The webhook payload of one accepted event, field by field; the transport
/// turns it into the JSON document it posts.
pub struct AlertPayload {
    pub username: String,
    pub title: String,
    pub description: String,
    pub color: u32,
    pub footer_text: String,
    pub timestamp: String,
}

/// The alert title: the accepted token's ticker after the launch tag.
pub open spec fn alert_title_spec(symbol: Seq<char>) -> Seq<char> {
    "HQ Launch: $"@ + symbol
}

/// The alert description: ticker, name, spend and mint, followed by the two
/// terminal links for the mint.
pub open spec fn alert_description_spec(
    symbol: Seq<char>,
    name: Seq<char>,
    spend_text: Seq<char>,
    mint: Seq<char>,
) -> Seq<char> {
    "**Ticker:** `$"@ + symbol + "`\n**Name:** `"@ + name + "`\n**Dev Spend:** `"@ + spend_text
        + " SOL`\n**Mint:** `"@ + mint + "`\n\n[BullX](https://bullx.io/terminal?chainId=1399811149&address="@
        + mint + ") | [Pump.fun](https://pump.fun/"@ + mint + ")"@
}

/// Builds the alert payload of one accepted decision. `spend_text` is the
/// decision's spend formatted in SOL and `timestamp` the delivery time;
/// both are taken as given, and every other text is built here.
pub fn build_alert(decision: &Decision, spend_text: &str, timestamp: &str) -> (r: AlertPayload)
    ensures
        r.username@ == "PumpStack Monitor"@,
        r.title@ == alert_title_spec(decision.result.token_symbol@),
        r.description@ == alert_description_spec(
            decision.result.token_symbol@,
            decision.result.token_name@,
            spend_text@,
            decision.result.mint_address@,
        ),
        r.color == ALERT_COLOR,
        r.footer_text@ == "PumpStack Quality Filter"@,
        r.timestamp@ == timestamp@,
{
    let symbol = decision.result.token_symbol.as_str();
    let name = decision.result.token_name.as_str();
    let mint = decision.result.mint_address.as_str();
    let title = "HQ Launch: $".to_owned().concat(symbol);
    let description = "**Ticker:** `$"
        .to_owned()
        .concat(symbol)
        .concat("`\n**Name:** `")
        .concat(name)
        .concat("`\n**Dev Spend:** `")
        .concat(spend_text)
        .concat(" SOL`\n**Mint:** `")
        .concat(mint)
        .concat("`\n\n[BullX](https://bullx.io/terminal?chainId=1399811149&address=")
        .concat(mint)
        .concat(") | [Pump.fun](https://pump.fun/")
        .concat(mint)
        .concat(")");
    AlertPayload {
        username: "PumpStack Monitor".to_owned(),
        title,
        description,
        color: ALERT_COLOR,
        footer_text: "PumpStack Quality Filter".to_owned(),
        timestamp: timestamp.to_owned(),
    }
}

} // verus!
