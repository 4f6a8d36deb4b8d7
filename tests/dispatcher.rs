use askpass_watch::{Action, Lifecycle, MergeLoop, Phase, Source, Startup, Step, Wake};

#[test]
fn run_starts_tick_then_change_then_merge() {
    let mut lc = Lifecycle::new();
    assert_eq!(lc.phase(), Phase::Constructed);
    assert_eq!(lc.run(), Action::StartTick);
    assert_eq!(lc.on_startup(Startup::TickStarted), Action::StartChange);
    assert_eq!(lc.on_startup(Startup::ChangeStarted), Action::SpawnMerge);
    assert_eq!(lc.phase(), Phase::Running);
}

#[test]
fn second_run_is_ignored() {
    let mut lc = Lifecycle::new();
    assert_eq!(lc.run(), Action::StartTick);
    assert_eq!(lc.run(), Action::Ignore);
    assert_eq!(lc.phase(), Phase::StartingTick);
}

#[test]
fn change_source_failure_stops_the_tick_source() {
    let mut lc = Lifecycle::new();
    lc.run();
    lc.on_startup(Startup::TickStarted);
    assert_eq!(
        lc.on_startup(Startup::ChangeFailed),
        Action::Abort { stop_tick: true, stop_change: false }
    );
    assert_eq!(lc.phase(), Phase::Failed);
    assert_eq!(lc.run(), Action::Ignore);
    assert!(!lc.stop());
}

#[test]
fn tick_source_failure_stops_nothing() {
    let mut lc = Lifecycle::new();
    lc.run();
    assert_eq!(
        lc.on_startup(Startup::TickFailed),
        Action::Abort { stop_tick: false, stop_change: false }
    );
    assert_eq!(lc.phase(), Phase::Failed);
}

#[test]
fn stop_while_starting_aborts_what_came_up() {
    let mut lc = Lifecycle::new();
    lc.run();
    lc.on_startup(Startup::TickStarted);
    assert!(lc.stop());
    assert_eq!(
        lc.on_startup(Startup::ChangeStarted),
        Action::Abort { stop_tick: true, stop_change: true }
    );
    assert_eq!(lc.phase(), Phase::Stopped);
}

#[test]
fn stop_is_idempotent() {
    let mut lc = Lifecycle::new();
    lc.run();
    lc.on_startup(Startup::TickStarted);
    lc.on_startup(Startup::ChangeStarted);
    assert!(lc.stop());
    assert_eq!(lc.phase(), Phase::Stopped);
    assert!(!lc.stop());
    assert_eq!(lc.phase(), Phase::Stopped);
    assert_eq!(lc.run(), Action::Ignore);
}

#[test]
fn stop_before_run_changes_nothing() {
    let mut lc = Lifecycle::new();
    assert!(!lc.stop());
    assert_eq!(lc.phase(), Phase::Constructed);
    assert_eq!(lc.run(), Action::StartTick);
}

#[test]
fn merge_forwards_events_with_their_source() {
    let mut merge = MergeLoop::new();
    assert_eq!(merge.step(false, Wake::Tick(1u32)), Step::Forward(Source::Tick, 1));
    assert_eq!(merge.step(false, Wake::FileChange(2u32)), Step::Forward(Source::FileChange, 2));
    assert!(!merge.is_finished());
}

#[test]
fn cancellation_wins_over_ready_events() {
    let mut merge = MergeLoop::new();
    let mut forwarded = Vec::new();
    for i in 0u32..100 {
        let cancelled = i >= 40;
        let wake = if i % 2 == 0 { Wake::Tick(i) } else { Wake::FileChange(i) };
        if let Step::Forward(_, e) = merge.step(cancelled, wake) {
            forwarded.push(e);
        }
    }
    assert_eq!(forwarded, (0u32..40).collect::<Vec<_>>());
    assert!(merge.is_finished());
}

#[test]
fn nothing_is_forwarded_after_exit() {
    let mut merge = MergeLoop::new();
    assert_eq!(merge.step(false, Wake::<u32>::Cancelled), Step::Exit);
    assert!(merge.is_finished());
    assert_eq!(merge.step(false, Wake::Tick(7u32)), Step::Exit);
    assert_eq!(merge.step(false, Wake::FileChange(8u32)), Step::Exit);
}
