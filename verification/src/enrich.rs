//! The pipeline's view of one fetched transaction, and the enrichment step
//! that derives the quality facts from it: the fee payer's spend, the new
//! token's mint address, and the metadata embedded in the program's log
//! lines.

use crate::codecs::base64_decode;
use crate::codecs::base64_decoded;
use crate::decoder::decode_at;
use crate::decoder::decode_at_spec;
use crate::strutil::has_prefix;
use crate::strutil::strip_prefix_str;
use vstd::prelude::*;

verus! {

/// Payload offset of the metadata in a plain creation event.
pub const OFFSET_PLAIN: usize = 8;

/// Payload offset of the metadata in an event that carries extra public
/// keys before it.
pub const OFFSET_WITH_KEYS: usize = 104;

/// One post-transaction token balance, as the pipeline reads it: the token's
/// mint address, and whether a UI amount was reported and lies above the
/// new-mint threshold. The fractional comparison happens where the RPC
/// answer is converted into this record.
#[derive(Debug, Clone, PartialEq)]
pub struct TokenBalance {
    pub mint: String,
    pub amount_above_min: bool,
}

/// What the pipeline reads of one fetched transaction: the fee payer's
/// balances in lamports before and after (index zero of each sequence), the
/// post-transaction token balances, and the transaction's own log lines.
/// The two optional fields may be absent from the RPC answer.
#[derive(Debug, Clone, PartialEq)]
pub struct TransactionDetail {
    pub pre_balances: Vec<u64>,
    pub post_balances: Vec<u64>,
    pub post_token_balances: Option<Vec<TokenBalance>>,
    pub log_messages: Option<Vec<String>>,
}

/// The facts derived from one transaction, with placeholder defaults where
/// the heuristics found nothing.
#[derive(Debug, Clone, PartialEq)]
pub struct EnrichmentResult {
    /// The fee payer's balance decrease, in lamports; a billion lamports
    /// make one SOL.
    pub spend_lamports: u64,
    /// The new token's mint address, or "Unknown".
    pub mint_address: String,
    /// The decoded token name, or "Unknown Token".
    pub token_name: String,
    /// The decoded token symbol, or "UNKNOWN".
    pub token_symbol: String,
}

/// The fee payer's balance decrease in lamports: zero when either balance
/// sequence is empty or the balance did not decrease.
pub open spec fn spend_spec(pre: Seq<u64>, post: Seq<u64>) -> int {
    if pre.len() > 0 && post.len() > 0 && pre[0] > post[0] {
        pre[0] - post[0]
    } else {
        0
    }
}

/// The mint of the first token balance whose amount lies above the
/// threshold; the placeholder when there is none.
pub open spec fn mint_spec(balances: Seq<TokenBalance>) -> Seq<char>
    decreases balances.len(),
{
    if balances.len() == 0 {
        "Unknown"@
    } else if balances[0].amount_above_min {
        balances[0].mint@
    } else {
        mint_spec(balances.drop_first())
    }
}

/// The mint address a transaction yields; the placeholder when the RPC
/// answer carried no token balances.
pub open spec fn mint_of_detail(d: TransactionDetail) -> Seq<char> {
    match d.post_token_balances {
        Some(balances) => mint_spec(balances@),
        None => "Unknown"@,
    }
}

/// The prefix that marks a log line as carrying the program's event payload.
pub open spec fn program_data_prefix() -> Seq<char> {
    "Program data: "@
}

/// The metadata one log line yields: the line must carry the program-data
/// prefix, the remainder must decode as base64, and the payload must decode
/// at the plain offset or, failing that, at the offset that skips the
/// embedded public keys.
pub open spec fn line_metadata_spec(line: Seq<char>) -> Option<(Seq<char>, Seq<char>)> {
    if !has_prefix(line, program_data_prefix()) {
        None
    } else {
        match base64_decoded(
            line.subrange(program_data_prefix().len() as int, line.len() as int),
        ) {
            Some(payload) => match decode_at_spec(payload, OFFSET_PLAIN as int) {
                Some(meta) => Some(meta),
                None => decode_at_spec(payload, OFFSET_WITH_KEYS as int),
            },
            None => None,
        }
    }
}

/// The metadata of the first log line that yields any, scanning in order.
pub open spec fn logs_metadata_spec(logs: Seq<Seq<char>>) -> Option<(Seq<char>, Seq<char>)>
    decreases logs.len(),
{
    if logs.len() == 0 {
        None
    } else {
        match line_metadata_spec(logs[0]) {
            Some(meta) => Some(meta),
            None => logs_metadata_spec(logs.drop_first()),
        }
    }
}

/// The metadata a transaction yields; none when the RPC answer carried no
/// log lines.
pub open spec fn metadata_of_detail(d: TransactionDetail) -> Option<(Seq<char>, Seq<char>)> {
    match d.log_messages {
        Some(logs) => logs_metadata_spec(logs.deep_view()),
        None => None,
    }
}

/// The four enrichment facts of `r` are exactly those derived from `d`.
pub open spec fn is_enrichment_of(r: EnrichmentResult, d: TransactionDetail) -> bool {
    &&& r.spend_lamports == spend_spec(d.pre_balances@, d.post_balances@)
    &&& r.mint_address@ == mint_of_detail(d)
    &&& match metadata_of_detail(d) {
        Some(meta) => r.token_name@ == meta.0 && r.token_symbol@ == meta.1,
        None => r.token_name@ == "Unknown Token"@ && r.token_symbol@ == "UNKNOWN"@,
    }
}

/// Computes the fee payer's spend from the balance sequences.
pub fn compute_spend(pre: &Vec<u64>, post: &Vec<u64>) -> (r: u64)
    ensures
        r == spend_spec(pre@, post@),
{
    if pre.len() > 0 && post.len() > 0 && pre[0] > post[0] {
        pre[0] - post[0]
    } else {
        0
    }
}

/// Picks the mint address of the first token balance above the threshold.
pub fn extract_mint(detail: &TransactionDetail) -> (r: String)
    ensures
        r@ == mint_of_detail(*detail),
{
    match &detail.post_token_balances {
        Some(balances) => {
            assert(mint_of_detail(*detail) == mint_spec(balances@));
            assert(balances@.skip(0) =~= balances@);
            let mut i: usize = 0;
            while i < balances.len()
                invariant
                    i <= balances.len(),
                    mint_of_detail(*detail) == mint_spec(balances@),
                    mint_spec(balances@) == mint_spec(balances@.skip(i as int)),
                decreases balances.len() - i,
            {
                assert(balances@.skip(i as int)[0] == balances@[i as int]);
                if balances[i].amount_above_min {
                    assert(mint_spec(balances@.skip(i as int)) == balances@[i as int].mint@);
                    return balances[i].mint.clone();
                }
                assert(mint_spec(balances@.skip(i as int)) == mint_spec(
                    balances@.skip(i as int).drop_first(),
                ));
                assert(balances@.skip(i as int).drop_first() =~= balances@.skip(i as int + 1));
                i = i + 1;
            }
            assert(balances@.skip(balances.len() as int) =~= Seq::<TokenBalance>::empty());
            "Unknown".to_owned()
        },
        None => "Unknown".to_owned(),
    }
}

/// Decodes the metadata one log line yields, if any.
fn line_metadata(line: &str) -> (r: Option<(String, String)>)
    ensures
        r matches Some(p) ==> line_metadata_spec(line@) == Some((p.0@, p.1@)),
        r is None ==> line_metadata_spec(line@) is None,
{
    let rest = match strip_prefix_str(line, "Program data: ") {
        Some(s) => s,
        None => {
            return None;
        },
    };
    let payload = match base64_decode(rest.as_str()) {
        Some(v) => v,
        None => {
            return None;
        },
    };
    match decode_at(&payload, OFFSET_PLAIN) {
        Some(meta) => Some(meta),
        None => decode_at(&payload, OFFSET_WITH_KEYS),
    }
}

/// Scans the transaction's log lines for embedded metadata: the first line
/// that decodes wins, and the placeholders stand when none does.
pub fn extract_metadata(detail: &TransactionDetail) -> (r: (String, String))
    ensures
        match metadata_of_detail(*detail) {
            Some(meta) => r.0@ == meta.0 && r.1@ == meta.1,
            None => r.0@ == "Unknown Token"@ && r.1@ == "UNKNOWN"@,
        },
{
    match &detail.log_messages {
        Some(logs) => {
            let ghost all: Seq<Seq<char>> = logs.deep_view();
            assert(metadata_of_detail(*detail) == logs_metadata_spec(all));
            assert(all.skip(0) =~= all);
            let mut i: usize = 0;
            while i < logs.len()
                invariant
                    i <= logs.len(),
                    i <= all.len(),
                    all == logs.deep_view(),
                    metadata_of_detail(*detail) == logs_metadata_spec(all),
                    logs_metadata_spec(all) == logs_metadata_spec(all.skip(i as int)),
                decreases logs.len() - i,
            {
                assert(all.skip(i as int)[0] == logs@[i as int]@);
                if let Some(meta) = line_metadata(logs[i].as_str()) {
                    assert(logs_metadata_spec(all.skip(i as int)) == Some((meta.0@, meta.1@)));
                    return meta;
                }
                assert(logs_metadata_spec(all.skip(i as int)) == logs_metadata_spec(
                    all.skip(i as int).drop_first(),
                ));
                assert(all.skip(i as int).drop_first() =~= all.skip(i as int + 1));
                i = i + 1;
            }
            assert(all.skip(logs.len() as int) =~= Seq::<Seq<char>>::empty());
            ("Unknown Token".to_owned(), "UNKNOWN".to_owned())
        },
        None => ("Unknown Token".to_owned(), "UNKNOWN".to_owned()),
    }
}

/// Derives the enrichment facts of one fetched transaction.
pub fn enrich(detail: &TransactionDetail) -> (r: EnrichmentResult)
    ensures
        is_enrichment_of(r, *detail),
{
    let spend = compute_spend(&detail.pre_balances, &detail.post_balances);
    let mint = extract_mint(detail);
    let meta = extract_metadata(detail);
    EnrichmentResult {
        spend_lamports: spend,
        mint_address: mint,
        token_name: meta.0,
        token_symbol: meta.1,
    }
}

} // verus!
