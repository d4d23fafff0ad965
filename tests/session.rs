use sentry_rust_minidump::reporter::LoopAction;
use sentry_rust_minidump::session::{serve_step, ReporterPhase, ServeEvent};

fn run(evs: &[ServeEvent]) -> (ReporterPhase, u32, LoopAction) {
    let mut phase = ReporterPhase::AwaitConnection;
    let mut submitted = 0;
    let mut action = LoopAction::Continue;
    for ev in evs {
        let s = serve_step(phase, *ev);
        phase = s.phase;
        action = s.action;
        if s.submits_event {
            submitted += 1;
        }
    }
    (phase, submitted, action)
}

#[test]
fn clean_client_exit_submits_nothing() {
    let evs = [
        ServeEvent::ClientConnected,
        ServeEvent::Message,
        ServeEvent::Message,
        ServeEvent::ClientDisconnected,
    ];
    assert_eq!(run(&evs), (ReporterPhase::Exited, 0, LoopAction::Exit));
}

#[test]
fn stale_client_exits_without_event() {
    let evs = [ServeEvent::ClientConnected, ServeEvent::Message, ServeEvent::StaleTimeout];
    assert_eq!(run(&evs), (ReporterPhase::Exited, 0, LoopAction::Exit));
}

#[test]
fn no_client_ever_connects() {
    assert_eq!(run(&[ServeEvent::StaleTimeout]), (ReporterPhase::Exited, 0, LoopAction::Exit));
}

#[test]
fn dump_submits_exactly_once() {
    let evs = [
        ServeEvent::ClientConnected,
        ServeEvent::Message,
        ServeEvent::DumpProduced,
        ServeEvent::DumpProduced,
        ServeEvent::ClientConnected,
        ServeEvent::DumpProduced,
    ];
    assert_eq!(run(&evs), (ReporterPhase::Exited, 1, LoopAction::Exit));
}

#[test]
fn second_client_is_ignored() {
    let s = serve_step(ReporterPhase::Serving, ServeEvent::ClientConnected);
    assert_eq!(s.phase, ReporterPhase::Serving);
    assert_eq!(s.action, LoopAction::Continue);
    assert!(!s.submits_event);
}
