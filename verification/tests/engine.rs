use tx_engine::error::TransactionError;
use tx_engine::text::str_contains;
use tx_engine::transaction_service::{
    backoff_ms, SubmitEvent, SubmitPhase, TransactionService,
};

fn sig_id(byte: u8) -> Vec<u8> {
    vec![byte; 64]
}

/// Drives one submission, answering every reference fetch with success and
/// feeding the scripted send and confirmation outcomes in order.  Returns the
/// terminal outcome, the backoff sleeps the machine asked for, and the number
/// of sends it requested.
fn drive(
    max_retries: u32,
    mut send_outcomes: Vec<Result<Vec<u8>, String>>,
    mut confirm_outcomes: Vec<Result<bool, String>>,
) -> (Result<Vec<u8>, TransactionError>, Vec<u64>, usize) {
    let service = TransactionService::new(max_retries);
    let mut sub = service.submit_transaction();
    let mut waits: Vec<u64> = Vec::new();
    let mut sends: usize = 0;
    loop {
        match &sub.phase {
            SubmitPhase::Waiting { ms } => {
                waits.push(*ms);
                sub.on_event(SubmitEvent::Waited);
            }
            SubmitPhase::FetchingReference => {
                sub.on_event(SubmitEvent::ReferenceFetched(Ok(())));
            }
            SubmitPhase::Sending => {
                sends += 1;
                let outcome = send_outcomes.remove(0);
                sub.on_event(SubmitEvent::SendFinished(outcome));
            }
            SubmitPhase::Confirming { .. } => {
                let outcome = confirm_outcomes.remove(0);
                sub.on_event(SubmitEvent::ConfirmFinished(outcome));
            }
            SubmitPhase::Finished { outcome } => {
                return (outcome.clone(), waits, sends);
            }
        }
    }
}

#[test]
fn always_retriable_failure_exhausts_budget() {
    let sends = vec![
        Err("timeout".to_string()),
        Err("timeout".to_string()),
        Err("timeout".to_string()),
    ];
    let (outcome, waits, n_sends) = drive(2, sends, vec![]);
    assert_eq!(outcome, Err(TransactionError::MaxRetriesExceeded));
    assert_eq!(n_sends, 3);
    assert_eq!(waits, vec![500, 1000]);
}

#[test]
fn zero_retries_allows_one_attempt() {
    let (outcome, waits, n_sends) = drive(0, vec![Err("timeout".to_string())], vec![]);
    assert_eq!(outcome, Err(TransactionError::MaxRetriesExceeded));
    assert_eq!(n_sends, 1);
    assert!(waits.is_empty());
}

#[test]
fn fatal_send_error_returns_immediately() {
    let msg = "insufficient funds for transaction".to_string();
    let (outcome, waits, n_sends) = drive(3, vec![Err(msg.clone())], vec![]);
    assert_eq!(outcome, Err(TransactionError::SendError(msg)));
    assert_eq!(n_sends, 1);
    assert!(waits.is_empty());
}

#[test]
fn fatal_confirmation_error_returns_immediately() {
    let (outcome, _, n_sends) = drive(
        3,
        vec![Ok(sig_id(1))],
        vec![Err("node is behind".to_string())],
    );
    assert_eq!(
        outcome,
        Err(TransactionError::ConfirmationError("node is behind".to_string()))
    );
    assert_eq!(n_sends, 1);
}

#[test]
fn backoff_doubles_from_500ms() {
    let sends = vec![
        Err("timeout".to_string()),
        Err("timeout".to_string()),
        Err("timeout".to_string()),
        Err("timeout".to_string()),
    ];
    let (_, waits, _) = drive(3, sends, vec![]);
    assert_eq!(waits, vec![500, 1000, 2000]);
}

#[test]
fn backoff_formula_is_exact() {
    assert_eq!(backoff_ms(2), 500);
    assert_eq!(backoff_ms(3), 1000);
    assert_eq!(backoff_ms(4), 2000);
    assert_eq!(backoff_ms(12), 512_000);
    assert_eq!(backoff_ms(57), 500 * (1u64 << 55));
    assert_eq!(backoff_ms(58), u64::MAX);
    assert_eq!(backoff_ms(200), u64::MAX);
}

#[test]
fn retriable_send_messages_are_classified_retriable() {
    let retriable_msgs = [
        "blockhash not found, please retry",
        "timeout",
        "the socket closed unexpectedly",
        "retry rate limit reached",
        "HTTP 429: too many requests",
    ];
    for msg in retriable_msgs {
        let err = TransactionError::SendError(msg.to_string());
        assert!(TransactionService::is_retriable_error(&err));
    }
}

#[test]
fn unmatched_send_message_is_fatal() {
    let err = TransactionError::SendError("insufficient funds for transaction".to_string());
    assert!(!TransactionService::is_retriable_error(&err));
}

#[test]
fn classification_is_case_sensitive() {
    let err = TransactionError::SendError("Timeout".to_string());
    assert!(!TransactionService::is_retriable_error(&err));
}

#[test]
fn rpc_errors_are_always_retriable() {
    let err = TransactionError::RpcError("anything at all".to_string());
    assert!(TransactionService::is_retriable_error(&err));
}

#[test]
fn confirmation_classification_matches_policy() {
    let retriable = TransactionError::ConfirmationError("timeout while polling".to_string());
    assert!(TransactionService::is_retriable_error(&retriable));
    let retriable2 = TransactionError::ConfirmationError("connection closed".to_string());
    assert!(TransactionService::is_retriable_error(&retriable2));
    let fatal = TransactionError::ConfirmationError("Transaction was not confirmed".to_string());
    assert!(!TransactionService::is_retriable_error(&fatal));
}

#[test]
fn fatal_kinds_are_never_retriable() {
    assert!(!TransactionService::is_retriable_error(&TransactionError::MaxRetriesExceeded));
    assert!(!TransactionService::is_retriable_error(&TransactionError::InsufficientFunds));
    assert!(!TransactionService::is_retriable_error(&TransactionError::InvalidInstruction(
        "timeout".to_string(),
    )));
    assert!(!TransactionService::is_retriable_error(&TransactionError::Other(
        "timeout".to_string(),
    )));
}

#[test]
fn unconfirmed_transaction_is_an_error_not_a_success() {
    let (outcome, waits, n_sends) = drive(3, vec![Ok(sig_id(7))], vec![Ok(false)]);
    assert_eq!(
        outcome,
        Err(TransactionError::ConfirmationError(
            "Transaction was not confirmed".to_string()
        ))
    );
    assert_eq!(n_sends, 1);
    assert!(waits.is_empty());
}

#[test]
fn retriable_confirmation_error_triggers_retry() {
    let (outcome, waits, n_sends) = drive(
        1,
        vec![Ok(sig_id(1)), Ok(sig_id(2))],
        vec![Err("timeout".to_string()), Ok(true)],
    );
    assert_eq!(outcome, Ok(sig_id(2)));
    assert_eq!(n_sends, 2);
    assert_eq!(waits, vec![500]);
}

#[test]
fn get_balance_passes_through_fetched_balance() {
    let service = TransactionService::new(3);
    assert_eq!(service.get_balance(Ok(1_000_000)), Ok(1_000_000));
}

#[test]
fn get_balance_wraps_transport_failure_as_rpc_error() {
    let service = TransactionService::new(3);
    let result = service.get_balance(Err("connection refused".to_string()));
    assert_eq!(
        result,
        Err(TransactionError::RpcError("connection refused".to_string()))
    );
}

#[test]
fn failed_reference_fetch_waits_without_spending_an_attempt() {
    let service = TransactionService::new(0);
    let mut sub = service.submit_transaction();
    assert!(matches!(sub.phase, SubmitPhase::FetchingReference));
    sub.on_event(SubmitEvent::ReferenceFetched(Err("rpc down".to_string())));
    assert!(matches!(sub.phase, SubmitPhase::Waiting { ms: 1000 }));
    assert_eq!(sub.attempt, 1);
    sub.on_event(SubmitEvent::Waited);
    assert!(matches!(sub.phase, SubmitPhase::FetchingReference));
    sub.on_event(SubmitEvent::ReferenceFetched(Ok(())));
    assert!(matches!(sub.phase, SubmitPhase::Sending));
    assert_eq!(sub.attempt, 1);
    assert!(!sub.is_finished());
}

#[test]
fn success_after_three_timeouts_with_budget_of_three() {
    let sends = vec![
        Err("timeout".to_string()),
        Err("timeout".to_string()),
        Err("timeout".to_string()),
        Ok(sig_id(9)),
    ];
    let (outcome, waits, n_sends) = drive(3, sends, vec![Ok(true)]);
    assert_eq!(outcome, Ok(sig_id(9)));
    assert_eq!(n_sends, 4);
    assert_eq!(waits, vec![500, 1000, 2000]);
}

#[test]
fn str_contains_finds_substrings() {
    assert!(str_contains("hello timeout now", "timeout"));
    assert!(str_contains("timeout", "timeout"));
    assert!(str_contains("abc", ""));
    assert!(str_contains("abcd", "cd"));
    assert!(!str_contains("abc", "abcd"));
    assert!(!str_contains("socket close", "socket closed"));
    assert!(!str_contains("Timeout", "timeout"));
}
