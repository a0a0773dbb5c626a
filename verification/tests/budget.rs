use reseeding::Budget;

#[test]
fn new_budget_is_full() {
    let budget = Budget::new(32).unwrap();
    assert_eq!(budget.threshold(), 32);
    assert_eq!(budget.remaining(), 32);
}

#[test]
fn new_budget_takes_the_largest_threshold() {
    let budget = Budget::new(i64::MAX as u64).unwrap();
    assert_eq!(budget.threshold(), i64::MAX as u64);
    assert_eq!(budget.remaining(), i64::MAX);
}

#[test]
fn new_budget_refuses_a_threshold_out_of_range() {
    assert!(Budget::new(i64::MAX as u64 + 1).is_none());
    assert!(Budget::new(u64::MAX).is_none());
}

#[test]
fn full_budget_equals_new_budget() {
    let budget = Budget::full(77);
    assert_eq!(budget.threshold(), 77);
    assert_eq!(budget.remaining(), 77);
}

#[test]
fn due_when_nothing_would_remain() {
    let budget = Budget::full(32);
    assert!(!budget.is_due(0));
    assert!(!budget.is_due(31));
    assert!(budget.is_due(32));
    assert!(budget.is_due(33));
    assert!(budget.is_due(usize::MAX));
}

#[test]
fn empty_budget_is_always_due() {
    let budget = Budget::full(0);
    assert!(budget.is_due(0));
    assert!(budget.is_due(1));
}

#[test]
fn spend_takes_off_the_exact_count() {
    let mut budget = Budget::full(100);
    budget.spend(1);
    assert_eq!(budget.remaining(), 99);
    budget.spend(0);
    assert_eq!(budget.remaining(), 99);
    budget.spend(99);
    assert_eq!(budget.remaining(), 0);
    assert_eq!(budget.threshold(), 100);
}

#[test]
fn spend_may_overdraw() {
    let mut budget = Budget::full(10);
    budget.spend(25);
    assert_eq!(budget.remaining(), -15);
    assert!(budget.is_due(0));
    budget.spend(5);
    assert_eq!(budget.remaining(), -20);
}

#[test]
fn reset_restores_the_threshold() {
    let mut budget = Budget::full(10);
    budget.spend(25);
    budget.reset();
    assert_eq!(budget.remaining(), 10);
    assert_eq!(budget.threshold(), 10);
}

#[test]
fn delay_leaves_one_part_in_256_rounded_down() {
    for (threshold, expected) in [
        (0u64, 0i64),
        (1, 0),
        (255, 0),
        (256, 1),
        (257, 1),
        (511, 1),
        (512, 2),
        (1000, 3),
        (1 << 25, 1 << 17),
        (i64::MAX as u64, 36028797018963967),
    ] {
        let mut budget = Budget::full(threshold);
        budget.delay();
        assert_eq!(budget.remaining(), expected);
        assert_eq!(budget.remaining(), (threshold as i64) >> 8);
        assert_eq!(budget.threshold(), threshold);
    }
}

#[test]
fn delay_does_not_depend_on_what_remained() {
    let mut budget = Budget::full(1024);
    budget.spend(2000);
    budget.delay();
    assert_eq!(budget.remaining(), 4);
}
