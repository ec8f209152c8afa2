use watchdog::{
    advance_phase, dispatch_decision, DispatchAction, ScanPhase, SessionEvent, ShutdownLatch,
    CLOSE_MESSAGE, QUIT_MESSAGE,
};

#[test]
fn latch_commits_exactly_once() {
    let mut latch = ShutdownLatch::new();
    assert!(latch.try_commit());
    assert!(!latch.try_commit());
    assert!(!latch.try_commit());
}

#[test]
fn close_message_requests_shutdown() {
    let a = dispatch_decision(&SessionEvent::Message { id: CLOSE_MESSAGE });
    assert!(matches!(a, DispatchAction::Shutdown));
}

#[test]
fn quit_message_requests_shutdown() {
    let a = dispatch_decision(&SessionEvent::Message { id: QUIT_MESSAGE });
    assert!(matches!(a, DispatchAction::Shutdown));
}

#[test]
fn closing_queue_requests_shutdown() {
    let a = dispatch_decision(&SessionEvent::QueueClosed);
    assert!(matches!(a, DispatchAction::Shutdown));
}

#[test]
fn ordinary_message_is_forwarded() {
    let a = dispatch_decision(&SessionEvent::Message { id: 273 });
    assert!(matches!(a, DispatchAction::Forward));
    let b = dispatch_decision(&SessionEvent::Message { id: 0 });
    assert!(matches!(b, DispatchAction::Forward));
}

#[test]
fn scan_phases_cycle_through_sleep() {
    let after_kill = advance_phase(&ScanPhase::Killing);
    assert!(matches!(after_kill, ScanPhase::Sleeping));
    let after_sleep = advance_phase(&after_kill);
    assert!(matches!(after_sleep, ScanPhase::Scanning));
    let after_scan = advance_phase(&after_sleep);
    assert!(matches!(after_scan, ScanPhase::Killing));
}
