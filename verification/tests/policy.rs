use reseeding::{
    decide, narrow, Attempt, FailureKind, ReseedOutcome, Step, DELAY_DIVISOR, MAX_ATTEMPTS,
};

const KINDS: [FailureKind; 5] = [
    FailureKind::Unavailable,
    FailureKind::Unexpected,
    FailureKind::Transient,
    FailureKind::NotReady,
    FailureKind::Unlisted,
];

#[test]
fn tunables_have_their_documented_values() {
    assert_eq!(MAX_ATTEMPTS, 5);
    assert_eq!(DELAY_DIVISOR, 256);
}

#[test]
fn success_ends_the_run_at_any_attempt() {
    for number in 1..=MAX_ATTEMPTS {
        assert_eq!(decide(Attempt::Seeded, number), Step::Finish(ReseedOutcome::Reseeded));
    }
}

#[test]
fn not_ready_delays_at_any_attempt() {
    for number in 1..=MAX_ATTEMPTS {
        assert_eq!(
            decide(Attempt::Failed(FailureKind::NotReady), number),
            Step::Finish(ReseedOutcome::Delayed)
        );
    }
}

#[test]
fn unavailable_skips_at_any_attempt() {
    for number in 1..=MAX_ATTEMPTS {
        assert_eq!(
            decide(Attempt::Failed(FailureKind::Unavailable), number),
            Step::Finish(ReseedOutcome::Skipped)
        );
    }
}

#[test]
fn transient_is_retried_until_the_last_attempt() {
    for number in 1..MAX_ATTEMPTS {
        assert_eq!(decide(Attempt::Failed(FailureKind::Transient), number), Step::Retry);
    }
    assert_eq!(
        decide(Attempt::Failed(FailureKind::Transient), MAX_ATTEMPTS),
        Step::Finish(ReseedOutcome::Skipped)
    );
}

#[test]
fn unexpected_and_unlisted_are_retried_like_transient() {
    for kind in [FailureKind::Unexpected, FailureKind::Unlisted] {
        assert_eq!(decide(Attempt::Failed(kind), 1), Step::Retry);
        assert_eq!(decide(Attempt::Failed(kind), 4), Step::Retry);
        assert_eq!(decide(Attempt::Failed(kind), 5), Step::Finish(ReseedOutcome::Skipped));
    }
}

#[test]
fn narrow_passes_on_not_ready_and_transient() {
    assert_eq!(narrow(FailureKind::NotReady), (FailureKind::NotReady, false));
    assert_eq!(narrow(FailureKind::Transient), (FailureKind::Transient, false));
}

#[test]
fn narrow_masks_every_other_kind_as_transient() {
    assert_eq!(narrow(FailureKind::Unavailable), (FailureKind::Transient, true));
    assert_eq!(narrow(FailureKind::Unexpected), (FailureKind::Transient, true));
    assert_eq!(narrow(FailureKind::Unlisted), (FailureKind::Transient, true));
}

#[test]
fn narrow_reports_only_two_kinds() {
    for cause in KINDS {
        let (kind, skip) = narrow(cause);
        assert!(kind == FailureKind::NotReady || kind == FailureKind::Transient);
        assert_eq!(skip, kind != cause);
    }
}
