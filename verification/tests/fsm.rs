use payflow::status::{
    attempt_transition_allowed, intent_transition_allowed, is_attempt_terminal, is_intent_terminal,
    is_refund_terminal, refund_transition_allowed, AttemptStatus, Currency, IntentStatus,
    RefundStatus, StorageScheme,
};

#[test]
fn intent_terminal_statuses() {
    assert!(is_intent_terminal(IntentStatus::Succeeded));
    assert!(is_intent_terminal(IntentStatus::Failed));
    assert!(is_intent_terminal(IntentStatus::Cancelled));
    assert!(!is_intent_terminal(IntentStatus::RequiresPaymentMethod));
    assert!(!is_intent_terminal(IntentStatus::RequiresConfirmation));
    assert!(!is_intent_terminal(IntentStatus::RequiresCapture));
    assert!(!is_intent_terminal(IntentStatus::Processing));
}

#[test]
fn intent_moves_only_forward() {
    assert!(intent_transition_allowed(
        IntentStatus::RequiresPaymentMethod,
        IntentStatus::RequiresConfirmation
    ));
    assert!(intent_transition_allowed(IntentStatus::RequiresConfirmation, IntentStatus::Processing));
    assert!(intent_transition_allowed(IntentStatus::Processing, IntentStatus::Succeeded));
    assert!(intent_transition_allowed(IntentStatus::RequiresPaymentMethod, IntentStatus::Cancelled));
    // never backwards, never a self-loop
    assert!(!intent_transition_allowed(
        IntentStatus::Processing,
        IntentStatus::RequiresPaymentMethod
    ));
    assert!(!intent_transition_allowed(IntentStatus::Processing, IntentStatus::Processing));
}

#[test]
fn intent_terminal_statuses_admit_no_transition() {
    for from in [IntentStatus::Succeeded, IntentStatus::Failed, IntentStatus::Cancelled] {
        for to in [
            IntentStatus::RequiresPaymentMethod,
            IntentStatus::RequiresConfirmation,
            IntentStatus::RequiresCapture,
            IntentStatus::Processing,
            IntentStatus::Succeeded,
            IntentStatus::Failed,
            IntentStatus::Cancelled,
        ] {
            assert!(!intent_transition_allowed(from, to));
        }
    }
}

#[test]
fn attempt_transitions() {
    assert!(attempt_transition_allowed(AttemptStatus::Started, AttemptStatus::Pending));
    assert!(attempt_transition_allowed(AttemptStatus::Pending, AttemptStatus::Charged));
    assert!(attempt_transition_allowed(AttemptStatus::Pending, AttemptStatus::Failed));
    assert!(attempt_transition_allowed(AttemptStatus::Pending, AttemptStatus::AuthenticationFailed));
    assert!(!attempt_transition_allowed(AttemptStatus::Started, AttemptStatus::Charged));
    assert!(!attempt_transition_allowed(AttemptStatus::Charged, AttemptStatus::Pending));
    assert!(is_attempt_terminal(AttemptStatus::Charged));
    assert!(!is_attempt_terminal(AttemptStatus::Pending));
}

#[test]
fn refund_transitions() {
    assert!(refund_transition_allowed(RefundStatus::Pending, RefundStatus::Success));
    assert!(refund_transition_allowed(RefundStatus::Pending, RefundStatus::Failure));
    assert!(refund_transition_allowed(RefundStatus::Pending, RefundStatus::ManualReview));
    assert!(refund_transition_allowed(RefundStatus::ManualReview, RefundStatus::Success));
    // review is reachable only from pending
    assert!(!refund_transition_allowed(RefundStatus::ManualReview, RefundStatus::ManualReview));
    assert!(!refund_transition_allowed(RefundStatus::Success, RefundStatus::Pending));
    assert!(is_refund_terminal(RefundStatus::TransactionFailure));
    assert!(!is_refund_terminal(RefundStatus::ManualReview));
}

#[test]
fn currency_default_is_usd() {
    assert_eq!(Currency::default(), Currency::USD);
    assert_ne!(StorageScheme::Strict, StorageScheme::Cached);
}
