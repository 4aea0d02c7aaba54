use offchainworker::ledger::Event;
use offchainworker::ledger::Ledger;
use offchainworker::transaction::submit_observation;
use offchainworker::transaction::Error;
use offchainworker::transaction::Transaction;
use offchainworker::validator::validate;
use offchainworker::validator::Outcome;

#[test]
fn fresh_ledger_reads_zero_with_no_events() {
    let l = Ledger::new();
    assert_eq!(l.get(), 0);
    assert!(l.event_log().is_empty());
}

#[test]
fn signed_origin_is_unauthorized_and_moves_nothing() {
    let mut l = Ledger::new();
    let r = l.apply(submit_observation(42, 7), false);
    assert_eq!(r, Err(Error::Unauthorized));
    assert_eq!(l.get(), 0);
    assert!(l.event_log().is_empty());

    l.apply(submit_observation(9, 1), true).unwrap();
    let r2 = l.apply(submit_observation(1000, 2), false);
    assert_eq!(r2, Err(Error::Unauthorized));
    assert_eq!(l.get(), 9);
    assert_eq!(l.event_log().as_slice(), &[Event::ValueStored(9)]);
}

#[test]
fn overwrite_never_merge() {
    let mut l = Ledger::new();
    assert_eq!(l.apply(submit_observation(1, 5), true), Ok(()));
    assert_eq!(l.apply(submit_observation(2, 6), true), Ok(()));
    assert_eq!(l.get(), 2);
    assert_eq!(
        l.event_log().as_slice(),
        &[Event::ValueStored(1), Event::ValueStored(2)]
    );
}

#[test]
fn applying_again_overwrites_with_equal_observation_too() {
    let mut l = Ledger::new();
    assert_eq!(l.apply(submit_observation(7, 10), true), Ok(()));
    assert_eq!(l.apply(submit_observation(7, 11), true), Ok(()));
    assert_eq!(l.get(), 7);
    assert_eq!(
        l.event_log().as_slice(),
        &[Event::ValueStored(7), Event::ValueStored(7)]
    );
}

#[test]
fn submitted_observation_is_applied_end_to_end() {
    let tx = submit_observation(50000, 10);
    let out = validate(tx);
    assert_eq!(
        out,
        Outcome::Accepted { priority: 0, dedup_tag: (50000, 10), longevity: 3, propagate: true }
    );
    let mut l = Ledger::new();
    if matches!(out, Outcome::Accepted { .. }) {
        assert_eq!(l.apply(tx, true), Ok(()));
    }
    assert_eq!(l.get(), 50000);
    assert_eq!(l.event_log().as_slice(), &[Event::ValueStored(50000)]);
}

#[test]
fn rejected_call_never_reaches_the_handler() {
    let out = validate(Transaction::Other);
    assert_eq!(out, Outcome::Rejected { reason: Error::UnsupportedCall });
    let l = Ledger::new();
    if matches!(out, Outcome::Accepted { .. }) {
        panic!("a non-target call must not be admitted");
    }
    assert_eq!(l.get(), 0);
    assert!(l.event_log().is_empty());
}
