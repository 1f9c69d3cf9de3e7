use codlet::metrics::counter;
use codlet::metrics::{CapturingMetrics, MetricsObserver, NoopMetrics, Outcome};

fn noop_run() {
    let m = NoopMetrics;
    for _ in 0..1000 {
        m.increment(counter::CODE_ISSUED, None);
        m.increment(counter::SESSION_VALIDATE, Some(Outcome::Miss));
    }
}

fn labels_check() {
    assert_eq!(Outcome::Success.label(), "success");
    assert_eq!(Outcome::Miss.label(), "miss");
    assert_eq!(Outcome::RateLimited.label(), "rate_limited");
    assert_eq!(Outcome::Invalid.label(), "invalid");
    assert_eq!(Outcome::Replay.label(), "replay");
    assert_eq!(Outcome::Error.label(), "error");
}

fn capture_check() {
    let mut m = CapturingMetrics::new();
    m.increment(counter::CODE_ISSUED, None);
    m.increment(counter::CODE_CLAIM_WON, Some(Outcome::Success));
    m.increment(counter::SESSION_VALIDATE, Some(Outcome::Miss));
    assert_eq!(m.count(counter::CODE_ISSUED), 1);
    assert_eq!(m.count(counter::SESSION_VALIDATE), 1);
    let all = m.drain();
    assert_eq!(all.len(), 3);
    assert!(m.drain().is_empty());
}

fn vocabulary_check() {
    let forbidden = ["secret", "key", "hmac", "pepper", "code_value", "subject_id"];
    for (name, _) in [
        (counter::CODE_ISSUED, ()),
        (counter::CODE_REDEEM_ATTEMPT, ()),
        (counter::CODE_CLAIM_WON, ()),
        (counter::CODE_CLAIM_LOST, ()),
        (counter::FORM_TOKEN_CONSUME, ()),
        (counter::SESSION_ISSUED, ()),
        (counter::SESSION_VALIDATE, ()),
        (counter::RATE_LIMIT_BLOCKED, ()),
    ] {
        for word in forbidden {
            assert!(!name.contains(word), "counter {name:?} contains sensitive word {word:?}");
        }
    }
}

#[test]
fn metrics_noop_metrics_is_zero_cost() {
    noop_run();
}

#[test]
fn metrics_outcome_labels_are_stable() {
    labels_check();
}

#[test]
fn metrics_capturing_metrics_records_and_drains() {
    capture_check();
}

#[test]
fn metrics_metric_names_contain_no_secret_vocabulary() {
    vocabulary_check();
}

#[test]
fn tests_noop_metrics_is_zero_cost() {
    noop_run();
}

#[test]
fn tests_outcome_labels_are_stable() {
    labels_check();
}

#[test]
fn tests_capturing_metrics_records_and_drains() {
    capture_check();
}

#[test]
fn tests_metric_names_contain_no_secret_vocabulary() {
    vocabulary_check();
}

#[test]
fn capturing_metrics_counts_by_name_and_keeps_order() {
    let mut m = CapturingMetrics::new();
    m.increment(counter::CODE_CLAIM_LOST, Some(Outcome::Invalid));
    m.increment(counter::CODE_CLAIM_LOST, None);
    m.increment(counter::RATE_LIMIT_BLOCKED, Some(Outcome::RateLimited));
    assert_eq!(m.count(counter::CODE_CLAIM_LOST), 2);
    assert_eq!(m.count(counter::CODE_ISSUED), 0);
    let all = m.drain();
    assert_eq!(all[0], (counter::CODE_CLAIM_LOST, Some(Outcome::Invalid)));
    assert_eq!(all[2], (counter::RATE_LIMIT_BLOCKED, Some(Outcome::RateLimited)));
    assert_eq!(m.count(counter::CODE_CLAIM_LOST), 0);
}
