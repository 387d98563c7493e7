use turbod::bump_timeout::{BumpTimeout, WaitStep};

#[test]
fn new_sets_deadline_one_budget_out() {
    let t = BumpTimeout::new(100);
    assert_eq!(t.duration(), 100);
    assert_eq!(t.deadline(), 100);
    assert_eq!(t.as_instant(), 100);
}

#[test]
fn reset_moves_deadline_to_now_plus_duration() {
    let mut t = BumpTimeout::new(100);
    t.reset(70, 60);
    assert_eq!(t.deadline(), 130);
}

#[test]
fn reset_zero_makes_deadline_now() {
    let mut t = BumpTimeout::new(100);
    t.reset(40, 0);
    assert_eq!(t.deadline(), 40);
    assert_eq!(t.wait_step(40), WaitStep::Done);
}

#[test]
fn wait_step_never_wakes_early() {
    let t = BumpTimeout::new(100);
    assert_eq!(t.wait_step(50), WaitStep::Sleep(100));
    assert_eq!(t.wait_step(99), WaitStep::Sleep(100));
    assert_eq!(t.wait_step(100), WaitStep::Done);
    assert_eq!(t.wait_step(150), WaitStep::Done);
}

#[test]
fn wait_step_chases_deadline_extended_mid_sleep() {
    let mut t = BumpTimeout::new(100);
    // The waiter has slept up to 100; meanwhile a request moved the
    // deadline to 190, so a single sleep would have returned stale.
    t.reset(90, 100);
    assert_eq!(t.wait_step(100), WaitStep::Sleep(190));
    assert_eq!(t.wait_step(190), WaitStep::Done);
}

#[test]
fn wait_observes_later_of_two_resets() {
    let mut t = BumpTimeout::new(10);
    t.reset(10, 50);
    t.reset(20, 100);
    // A wait that has only slept past the first deadline is directed
    // to the second, later one.
    assert_eq!(t.wait_step(60), WaitStep::Sleep(120));
    assert_eq!(t.wait_step(120), WaitStep::Done);
}

#[test]
fn reset_after_wait_returned_has_no_retroactive_effect() {
    let mut t = BumpTimeout::new(100);
    assert_eq!(t.wait_step(100), WaitStep::Done);
    t.reset(200, 50);
    // The earlier, finished wait stays finished; only a new wait sees
    // the new deadline.
    assert_eq!(t.wait_step(100), WaitStep::Sleep(250));
}
