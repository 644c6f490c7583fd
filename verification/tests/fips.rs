use fips_core::error::Unspecified;
use fips_core::fips::{FipsConfig, FipsState, HealthLatch, PoisonLatch, ServiceIndicator};

fn strict_config() -> FipsConfig {
    FipsConfig { tracking: true, strict: true, status: true }
}

fn advisory_config() -> FipsConfig {
    FipsConfig { tracking: true, strict: false, status: true }
}

#[test]
fn poison_latch_starts_clean() {
    let latch = PoisonLatch::new();
    assert!(!latch.is_poisoned());
}

#[test]
fn poison_latch_reports_poisoned_forever() {
    let mut latch = PoisonLatch::new();
    latch.set_poisoned();
    assert!(latch.is_poisoned());
    assert!(latch.is_poisoned());
    assert!(latch.is_poisoned());
}

#[test]
fn poison_latch_set_twice_is_set_once() {
    let mut once = PoisonLatch::new();
    once.set_poisoned();
    let mut twice = PoisonLatch::new();
    twice.set_poisoned();
    twice.set_poisoned();
    assert_eq!(once.is_poisoned(), twice.is_poisoned());
    assert!(twice.is_poisoned());
}

#[test]
fn health_latch_starts_healthy() {
    let latch = HealthLatch::new();
    assert!(latch.is_healthy());
}

#[test]
fn health_latch_reports_unhealthy_forever() {
    let mut latch = HealthLatch::new();
    latch.record_failure();
    assert!(!latch.is_healthy());
    latch.record_failure();
    assert!(!latch.is_healthy());
    assert!(!latch.is_healthy());
}

#[test]
fn indicator_moved_is_approved_and_never_poisons() {
    let mut strict = FipsState::new(strict_config());
    let outcome = strict.indicator_check(7, 8, "signature");
    assert!(outcome.is_approved());
    assert!(!strict.is_poisoned());

    let mut advisory = FipsState::new(advisory_config());
    let outcome = advisory.indicator_check(7, 8, "signature");
    assert!(outcome.is_approved());
    assert!(!advisory.is_poisoned());
}

#[test]
fn indicator_unmoved_strict_poisons_and_classifies_not_approved() {
    let mut state = FipsState::new(strict_config());
    let outcome = state.indicator_check(5, 5, 42u32);
    assert!(!outcome.is_approved());
    assert_eq!(outcome, ServiceIndicator::NotApproved(42u32));
    assert!(state.is_poisoned());
}

#[test]
fn indicator_unmoved_nonstrict_is_advisory_only() {
    let mut state = FipsState::new(advisory_config());
    let outcome = state.indicator_check(5, 5, 42u32);
    assert!(outcome.is_approved());
    assert_eq!(outcome, ServiceIndicator::Approved(42u32));
    assert!(!state.is_poisoned());
}

#[test]
fn indicator_tracking_disabled_is_a_pass_through() {
    let mut state = FipsState::new(FipsConfig { tracking: false, strict: true, status: true });
    let outcome = state.indicator_check(5, 5, 42u32);
    assert!(outcome.is_approved());
    assert!(!state.is_poisoned());
}

#[test]
fn indicator_carries_the_result_regardless_of_classification() {
    let mut state = FipsState::new(strict_config());
    let approved = state.indicator_check(1, 2, String::from("digest"));
    assert_eq!(approved.into_inner(), "digest");
    let not_approved = state.indicator_check(3, 3, String::from("digest"));
    assert_eq!(not_approved.into_inner(), "digest");
}

#[test]
fn status_healthy_and_clean_succeeds() {
    let state = FipsState::new(strict_config());
    assert_eq!(state.fips_health_status(), Ok(()));
}

#[test]
fn status_poisoned_under_strict_fails() {
    let mut state = FipsState::new(strict_config());
    state.set_poisoned();
    assert_eq!(state.fips_health_status(), Err(Unspecified));
}

#[test]
fn status_unhealthy_fails() {
    let mut state = FipsState::new(strict_config());
    state.record_failure();
    assert!(!state.is_poisoned());
    assert_eq!(state.fips_health_status(), Err(Unspecified));
}

#[test]
fn status_nonstrict_ignores_the_poison_latch() {
    let mut state = FipsState::new(advisory_config());
    state.set_poisoned();
    assert_eq!(state.fips_health_status(), Ok(()));
}

#[test]
fn poisoning_survives_every_later_call() {
    let mut state = FipsState::new(strict_config());
    let outcome = state.indicator_check(9, 9, ());
    assert!(!outcome.is_approved());
    assert!(state.is_poisoned());

    let outcome = state.indicator_check(10, 11, ());
    assert!(outcome.is_approved());
    assert!(state.is_poisoned());
    state.record_failure();
    assert!(state.is_poisoned());
    assert_eq!(state.fips_health_status(), Err(Unspecified));
}

#[test]
fn state_starts_with_the_given_config() {
    let state = FipsState::new(advisory_config());
    assert_eq!(state.config(), advisory_config());
    assert!(state.is_healthy());
    assert!(!state.is_poisoned());
}
