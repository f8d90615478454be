use dlc_draw::acquisition::{AcquisitionLoop, PurchaseStep};
use dlc_draw::consumption::ConsumptionLoop;
use dlc_draw::response::PurchaseOutcome;

/// Runs the draw loop against a stub that decides each grant; returns the
/// batch sizes requested.
fn run(lp: &mut ConsumptionLoop, mut grant: impl FnMut(u32) -> u64) -> Vec<u32> {
    let mut calls = Vec::new();
    while let Some(size) = lp.next_batch() {
        calls.push(size);
        lp.record(grant(size));
        assert!(calls.len() < 1000);
    }
    calls
}

#[test]
fn full_grants_finish_in_one_pass() {
    let mut lp = ConsumptionLoop::new(23);
    let calls = run(&mut lp, |size| size as u64);
    assert_eq!(calls, vec![10, 10, 1, 1, 1]);
    assert_eq!(lp.remaining, 0);
    assert_eq!(lp.passes, 1);
    assert!(lp.is_finished());
}

#[test]
fn partial_grant_starts_second_pass() {
    let mut lp = ConsumptionLoop::new(10);
    let mut n = 0;
    let calls = run(&mut lp, |_| {
        n += 1;
        if n == 1 { 0 } else { 10 }
    });
    assert_eq!(calls, vec![10, 10]);
    assert_eq!(lp.passes, 2);
    assert_eq!(lp.remaining, 0);
}

#[test]
fn fewer_granted_replans_remainder() {
    let mut lp = ConsumptionLoop::new(15);
    let mut first = true;
    let calls = run(&mut lp, |size| {
        if first {
            first = false;
            7
        } else {
            size as u64
        }
    });
    assert_eq!(calls, vec![10, 5, 1, 1, 1]);
    assert_eq!(lp.passes, 2);
}

#[test]
fn nothing_to_draw() {
    let mut lp = ConsumptionLoop::new(0);
    assert!(lp.is_finished());
    assert_eq!(lp.next_batch(), None);
    assert_eq!(lp.passes, 0);
}

#[test]
fn over_grant_stops_at_zero() {
    let mut lp = ConsumptionLoop::new(3);
    assert_eq!(lp.next_batch(), Some(1));
    lp.record(50);
    assert_eq!(lp.remaining, 0);
}

#[test]
fn purchase_retries_until_success() {
    let mut acq = AcquisitionLoop::new();
    let mut results = vec![
        PurchaseOutcome::Failure(Some(1)),
        PurchaseOutcome::Failure(None),
        PurchaseOutcome::Success,
    ]
    .into_iter();
    let mut calls = 0;
    while acq.next_step() == PurchaseStep::Submit {
        calls += 1;
        acq.record(results.next().unwrap());
    }
    assert_eq!(calls, 3);
    assert_eq!(acq.attempts, 3);
    assert_eq!(acq.next_step(), PurchaseStep::Proceed);
}

#[test]
fn purchase_cancelled_stops() {
    let mut acq = AcquisitionLoop::new();
    acq.record(PurchaseOutcome::Failure(Some(5)));
    assert_eq!(acq.next_step(), PurchaseStep::Submit);
    acq.cancel();
    assert_eq!(acq.next_step(), PurchaseStep::Stop);
}
