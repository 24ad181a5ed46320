use base64::Engine as _;
use pumpstack::alert::build_alert;
use pumpstack::fetch::FetchState;
use pumpstack::fetch::FetchStep;
use pumpstack::enrich::enrich;
use pumpstack::enrich::EnrichmentResult;
use pumpstack::enrich::TokenBalance;
use pumpstack::enrich::TransactionDetail;
use pumpstack::event::screen_notification;
use pumpstack::fetch::fetch_from_outcomes;
use pumpstack::fetch::RetryPolicy;
use pumpstack::filter::decide;
use pumpstack::notify::DeliveryStatus;
use pumpstack::notify::NotifyState;
use pumpstack::notify::NotifyStep;
use pumpstack::processor::check_signature;
use pumpstack::processor::process_batch;
use pumpstack::processor::process_event_with_outcomes;
use pumpstack::processor::EventFate;
use pumpstack::strutil::contains_str;
use pumpstack::strutil::strip_prefix_str;

fn creation_payload(offset: usize, name: &str, symbol: &str) -> Vec<u8> {
    let mut v = vec![0u8; offset];
    v.extend_from_slice(&(name.len() as u32).to_le_bytes());
    v.extend_from_slice(name.as_bytes());
    v.extend_from_slice(&(symbol.len() as u32).to_le_bytes());
    v.extend_from_slice(symbol.as_bytes());
    v
}

fn program_data_line(payload: &[u8]) -> String {
    let mut line = "Program data: ".to_string();
    line.push_str(&base64::engine::general_purpose::STANDARD.encode(payload));
    line
}

fn valid_signature() -> String {
    bs58::encode(&[7u8; 64]).into_string()
}

fn sample_result(spend_lamports: u64) -> EnrichmentResult {
    EnrichmentResult {
        spend_lamports,
        mint_address: "Unknown".to_string(),
        token_name: "Unknown Token".to_string(),
        token_symbol: "UNKNOWN".to_string(),
    }
}

fn scenario_detail(pre: u64, post: u64, mint: &str) -> TransactionDetail {
    let ui_amount = 5_000_000.0_f64;
    TransactionDetail {
        pre_balances: vec![pre, 42],
        post_balances: vec![post, 42],
        post_token_balances: Some(vec![TokenBalance {
            mint: mint.to_string(),
            amount_above_min: ui_amount > 1_000_000.0,
        }]),
        log_messages: Some(vec![
            program_data_line(&creation_payload(8, "Foo", "FOO")),
            "Program log: Instruction: Create".to_string(),
        ]),
    }
}

fn outcomes_with_success_at(k: usize, detail: TransactionDetail) -> Vec<Option<TransactionDetail>> {
    let mut outcomes: Vec<Option<TransactionDetail>> = Vec::new();
    for _ in 0..k {
        outcomes.push(None);
    }
    outcomes.push(Some(detail));
    while outcomes.len() < 10 {
        outcomes.push(None);
    }
    outcomes
}

#[test]
fn subscriber_forwards_only_creation_events() {
    let forwarded = screen_notification(
        "sig".to_string(),
        vec![
            "Program log: something".to_string(),
            "Program log: Instruction: Create".to_string(),
        ],
    );
    let msg = forwarded.expect("creation event must be forwarded");
    assert_eq!(msg.signature, "sig");
    assert_eq!(msg.logs.len(), 2);

    let skipped = screen_notification(
        "sig".to_string(),
        vec![
            "Program log: Instruction: Buy".to_string(),
            "Program log: done".to_string(),
        ],
    );
    assert!(skipped.is_none());

    let empty = screen_notification("sig".to_string(), Vec::new());
    assert!(empty.is_none());
}

#[test]
fn quality_filter_boundary_is_inclusive() {
    let rejected = decide(sample_result(490_000_000));
    assert!(!rejected.accepted);

    let accepted = decide(sample_result(500_000_000));
    assert!(accepted.accepted);

    let zero = decide(sample_result(0));
    assert!(!zero.accepted);
}

#[test]
fn fetch_stops_at_first_success() {
    let detail = scenario_detail(2_000_000_000, 1_000_000_000, "Mint1");
    let (result, attempts) = fetch_from_outcomes(
        outcomes_with_success_at(2, detail.clone()),
        RetryPolicy::standard(),
    );
    assert_eq!(result, Some(detail));
    assert_eq!(attempts, 3);
}

#[test]
fn fetch_success_on_last_attempt() {
    let detail = scenario_detail(2_000_000_000, 1_000_000_000, "Mint1");
    let (result, attempts) = fetch_from_outcomes(
        outcomes_with_success_at(9, detail.clone()),
        RetryPolicy::standard(),
    );
    assert_eq!(result, Some(detail));
    assert_eq!(attempts, 10);
}

#[test]
fn fetch_exhausts_all_attempts_before_not_found() {
    let outcomes: Vec<Option<TransactionDetail>> = (0..10).map(|_| None).collect();
    let (result, attempts) = fetch_from_outcomes(outcomes, RetryPolicy::standard());
    assert_eq!(result, None);
    assert_eq!(attempts, 10);
}

#[test]
fn fetch_single_attempt_budget() {
    let policy = RetryPolicy {
        max_attempts: 1,
        delay_ms: 0,
    };
    let outcomes: Vec<Option<TransactionDetail>> = vec![None];
    let (result, attempts) = fetch_from_outcomes(outcomes, policy);
    assert_eq!(result, None);
    assert_eq!(attempts, 1);
}

#[test]
fn fetch_state_steps_through_failures() {
    let mut state = FetchState::new(RetryPolicy {
        max_attempts: 3,
        delay_ms: 250,
    });
    assert_eq!(state.record_attempt(None), FetchStep::RetryAfter(250));
    assert_eq!(state.record_attempt(None), FetchStep::RetryAfter(250));
    assert_eq!(state.record_attempt(None), FetchStep::GiveUp);
}

#[test]
fn retry_policy_standard_values() {
    let policy = RetryPolicy::standard();
    assert_eq!(policy.max_attempts, 10);
    assert_eq!(policy.delay_ms, 500);
}

#[test]
fn scenario_accepted_launch_is_notified() {
    let detail = scenario_detail(2_000_000_000, 1_000_000_000, "MintAddr1");
    let msg = screen_notification(
        valid_signature(),
        vec![
            program_data_line(&creation_payload(8, "Foo", "FOO")),
            "Program log: Instruction: Create".to_string(),
        ],
    )
    .expect("creation event");
    let fate = process_event_with_outcomes(
        &msg,
        outcomes_with_success_at(0, detail),
        RetryPolicy::standard(),
    );
    match fate {
        EventFate::Notify(decision) => {
            assert!(decision.accepted);
            assert_eq!(decision.result.spend_lamports, 1_000_000_000);
            assert_eq!(decision.result.token_name, "Foo");
            assert_eq!(decision.result.token_symbol, "FOO");
            assert_eq!(decision.result.mint_address, "MintAddr1");
        }
        other => panic!("expected a notification, got {:?}", other),
    }
}

#[test]
fn scenario_low_spend_is_rejected() {
    let detail = scenario_detail(1_100_000_000, 1_000_000_000, "MintAddr1");
    let msg = screen_notification(
        valid_signature(),
        vec![
            program_data_line(&creation_payload(8, "Foo", "FOO")),
            "Program log: Instruction: Create".to_string(),
        ],
    )
    .expect("creation event");
    let fate = process_event_with_outcomes(
        &msg,
        outcomes_with_success_at(0, detail),
        RetryPolicy::standard(),
    );
    match fate {
        EventFate::Rejected(decision) => {
            assert!(!decision.accepted);
            assert_eq!(decision.result.spend_lamports, 100_000_000);
        }
        other => panic!("expected a rejection, got {:?}", other),
    }
}

#[test]
fn scenario_fetch_exhaustion_drops_event() {
    let msg = screen_notification(
        valid_signature(),
        vec!["Program log: Instruction: Create".to_string()],
    )
    .expect("creation event");
    let outcomes: Vec<Option<TransactionDetail>> = (0..10).map(|_| None).collect();
    let fate = process_event_with_outcomes(&msg, outcomes, RetryPolicy::standard());
    assert_eq!(fate, EventFate::Dropped);
}

#[test]
fn invalid_signature_skips_event() {
    let msg = screen_notification(
        "not-base58-0OIl".to_string(),
        vec!["Program log: Instruction: Create".to_string()],
    )
    .expect("creation event");
    let outcomes: Vec<Option<TransactionDetail>> = (0..10).map(|_| None).collect();
    let fate = process_event_with_outcomes(&msg, outcomes, RetryPolicy::standard());
    assert_eq!(fate, EventFate::InvalidSignature);
}

#[test]
fn signature_check_requires_64_decoded_bytes() {
    assert!(check_signature(&valid_signature()));
    assert!(!check_signature(&bs58::encode(&[7u8; 63]).into_string()));
    assert!(!check_signature(&bs58::encode(&[7u8; 65]).into_string()));
    assert!(!check_signature("not-base58-0OIl"));
    assert!(!check_signature(""));
}

#[test]
fn batch_notifies_at_most_once_per_event() {
    let accepted = scenario_detail(2_000_000_000, 1_000_000_000, "MintA");
    let rejected = scenario_detail(1_100_000_000, 1_000_000_000, "MintB");
    let events = vec![
        (
            screen_notification(
                valid_signature(),
                vec![
                    program_data_line(&creation_payload(8, "Foo", "FOO")),
                    "Program log: Instruction: Create".to_string(),
                ],
            )
            .unwrap(),
            Some(accepted),
        ),
        (
            screen_notification(
                valid_signature(),
                vec!["Program log: Instruction: Create".to_string()],
            )
            .unwrap(),
            Some(rejected),
        ),
        (
            screen_notification(
                valid_signature(),
                vec!["Program log: Instruction: Create".to_string()],
            )
            .unwrap(),
            None,
        ),
    ];
    let fates = process_batch(events);
    assert_eq!(fates.len(), 3);
    let notifications = fates
        .iter()
        .filter(|f| matches!(f, EventFate::Notify(_)))
        .count();
    assert_eq!(notifications, 1);
    assert!(matches!(fates[0], EventFate::Notify(_)));
    assert!(matches!(fates[1], EventFate::Rejected(_)));
    assert_eq!(fates[2], EventFate::Dropped);
}

#[test]
fn enrichment_defaults_without_metadata_or_balances() {
    let detail = TransactionDetail {
        pre_balances: Vec::new(),
        post_balances: Vec::new(),
        post_token_balances: None,
        log_messages: None,
    };
    let result = enrich(&detail);
    assert_eq!(result.spend_lamports, 0);
    assert_eq!(result.mint_address, "Unknown");
    assert_eq!(result.token_name, "Unknown Token");
    assert_eq!(result.token_symbol, "UNKNOWN");
}

#[test]
fn enrichment_skips_balances_below_the_mint_threshold() {
    let small = 900_000.0_f64;
    let detail = TransactionDetail {
        pre_balances: vec![5],
        post_balances: vec![9],
        post_token_balances: Some(vec![
            TokenBalance {
                mint: "Small".to_string(),
                amount_above_min: small > 1_000_000.0,
            },
            TokenBalance {
                mint: "Large".to_string(),
                amount_above_min: true,
            },
        ]),
        log_messages: Some(vec!["Program log: nothing".to_string()]),
    };
    let result = enrich(&detail);
    assert_eq!(result.spend_lamports, 0);
    assert_eq!(result.mint_address, "Large");
    assert_eq!(result.token_name, "Unknown Token");
}

#[test]
fn enrichment_falls_back_to_the_second_offset() {
    let detail = TransactionDetail {
        pre_balances: vec![3_000_000_000],
        post_balances: vec![1_000_000_000],
        post_token_balances: None,
        log_messages: Some(vec![program_data_line(&creation_payload(
            104, "Keyed", "KEY",
        ))]),
    };
    let result = enrich(&detail);
    assert_eq!(result.spend_lamports, 2_000_000_000);
    assert_eq!(result.token_name, "Keyed");
    assert_eq!(result.token_symbol, "KEY");
}

#[test]
fn enrichment_ignores_undecodable_program_data() {
    let detail = TransactionDetail {
        pre_balances: vec![1],
        post_balances: vec![1],
        post_token_balances: None,
        log_messages: Some(vec![
            "Program data: !!!not-base64!!!".to_string(),
            "Program log: other".to_string(),
        ]),
    };
    let result = enrich(&detail);
    assert_eq!(result.token_name, "Unknown Token");
    assert_eq!(result.token_symbol, "UNKNOWN");
}

#[test]
fn notifier_success_finishes_delivered() {
    let mut state = NotifyState::new();
    assert_eq!(
        state.record_status(DeliveryStatus::Delivered),
        NotifyStep::Finished(true)
    );
}

#[test]
fn notifier_retries_rate_limit_once_then_drops() {
    let mut state = NotifyState::new();
    assert_eq!(
        state.record_status(DeliveryStatus::RateLimited),
        NotifyStep::RetryAfter(5000)
    );
    assert_eq!(
        state.record_status(DeliveryStatus::RateLimited),
        NotifyStep::Finished(false)
    );
}

#[test]
fn notifier_failure_is_swallowed() {
    let mut state = NotifyState::new();
    assert_eq!(
        state.record_status(DeliveryStatus::Failed),
        NotifyStep::Finished(false)
    );
}

#[test]
fn alert_payload_carries_the_decision_facts() {
    let decision = decide(EnrichmentResult {
        spend_lamports: 1_000_000_000,
        mint_address: "MintAddr1".to_string(),
        token_name: "Foo".to_string(),
        token_symbol: "FOO".to_string(),
    });
    let alert = build_alert(&decision, "1.00", "2024-05-01T00:00:00Z");
    assert_eq!(alert.username, "PumpStack Monitor");
    assert_eq!(alert.title, "HQ Launch: $FOO");
    assert_eq!(alert.color, 5763719);
    assert_eq!(alert.footer_text, "PumpStack Quality Filter");
    assert_eq!(alert.timestamp, "2024-05-01T00:00:00Z");
    assert_eq!(
        alert.description,
        "**Ticker:** `$FOO`\n**Name:** `Foo`\n**Dev Spend:** `1.00 SOL`\n**Mint:** `MintAddr1`\n\n\
         [BullX](https://bullx.io/terminal?chainId=1399811149&address=MintAddr1) | \
         [Pump.fun](https://pump.fun/MintAddr1)"
    );
}

#[test]
fn contains_str_finds_substrings() {
    assert!(contains_str("Program log: Instruction: Create", "Instruction: Create"));
    assert!(!contains_str("Program log: Instruction: Buy", "Instruction: Create"));
    assert!(contains_str("abc", ""));
    assert!(!contains_str("ab", "abc"));
}

#[test]
fn strip_prefix_str_splits_program_data() {
    assert_eq!(
        strip_prefix_str("Program data: QUJD", "Program data: "),
        Some("QUJD".to_string())
    );
    assert_eq!(strip_prefix_str("Program log: x", "Program data: "), None);
}
