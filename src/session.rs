//! The reporter's serve loop as a state machine: it waits for its one client,
//! serves it, and exits after a dump, a disconnect or a stale timeout. At most
//! one event is submitted in a session.
use vstd::prelude::*;
use crate::reporter::LoopAction;

verus! {

/// Where the reporter's serve loop stands.
#[derive(Clone, Copy, Debug, PartialEq, Eq)]
pub enum ReporterPhase {
    AwaitConnection,
    Serving,
    Exited,
}

/// What the serve loop observes.
#[derive(Clone, Copy, Debug, PartialEq, Eq)]
pub enum ServeEvent {
    ClientConnected,
    Message,
    DumpProduced,
    ClientDisconnected,
    StaleTimeout,
}

/// The outcome of one event: the next phase, whether the loop goes on, and
/// whether an event is submitted to the reporting transport.
#[derive(Clone, Copy, Debug, PartialEq, Eq)]
pub struct ServeStep {
    pub phase: ReporterPhase,
    pub action: LoopAction,
    pub submits_event: bool,
}

/// The serve loop's transition for `ev` in `phase`.
pub open spec fn serve_next(phase: ReporterPhase, ev: ServeEvent) -> ServeStep {
    match (phase, ev) {
        (ReporterPhase::AwaitConnection, ServeEvent::ClientConnected) => ServeStep {
            phase: ReporterPhase::Serving,
            action: LoopAction::Continue,
            submits_event: false,
        },
        (ReporterPhase::AwaitConnection, ServeEvent::StaleTimeout) => ServeStep {
            phase: ReporterPhase::Exited,
            action: LoopAction::Exit,
            submits_event: false,
        },
        (ReporterPhase::AwaitConnection, _) => ServeStep {
            phase: ReporterPhase::AwaitConnection,
            action: LoopAction::Continue,
            submits_event: false,
        },
        (ReporterPhase::Serving, ServeEvent::DumpProduced) => ServeStep {
            phase: ReporterPhase::Exited,
            action: LoopAction::Exit,
            submits_event: true,
        },
        (ReporterPhase::Serving, ServeEvent::ClientDisconnected) => ServeStep {
            phase: ReporterPhase::Exited,
            action: LoopAction::Exit,
            submits_event: false,
        },
        (ReporterPhase::Serving, ServeEvent::StaleTimeout) => ServeStep {
            phase: ReporterPhase::Exited,
            action: LoopAction::Exit,
            submits_event: false,
        },
        (ReporterPhase::Serving, _) => ServeStep {
            phase: ReporterPhase::Serving,
            action: LoopAction::Continue,
            submits_event: false,
        },
        (ReporterPhase::Exited, _) => ServeStep {
            phase: ReporterPhase::Exited,
            action: LoopAction::Exit,
            submits_event: false,
        },
    }
}

/// Takes one step of the serve loop. A second client while one is served is
/// ignored; once exited, the loop stays exited and submits nothing.
pub fn serve_step(phase: ReporterPhase, ev: ServeEvent) -> (r: ServeStep)
    ensures
        r == serve_next(phase, ev),
{
    match (phase, ev) {
        (ReporterPhase::AwaitConnection, ServeEvent::ClientConnected) => ServeStep {
            phase: ReporterPhase::Serving,
            action: LoopAction::Continue,
            submits_event: false,
        },
        (ReporterPhase::AwaitConnection, ServeEvent::StaleTimeout) => ServeStep {
            phase: ReporterPhase::Exited,
            action: LoopAction::Exit,
            submits_event: false,
        },
        (ReporterPhase::AwaitConnection, _) => ServeStep {
            phase: ReporterPhase::AwaitConnection,
            action: LoopAction::Continue,
            submits_event: false,
        },
        (ReporterPhase::Serving, ServeEvent::DumpProduced) => ServeStep {
            phase: ReporterPhase::Exited,
            action: LoopAction::Exit,
            submits_event: true,
        },
        (ReporterPhase::Serving, ServeEvent::ClientDisconnected) | (
            ReporterPhase::Serving,
            ServeEvent::StaleTimeout,
        ) => ServeStep { phase: ReporterPhase::Exited, action: LoopAction::Exit, submits_event: false },
        (ReporterPhase::Serving, _) => ServeStep {
            phase: ReporterPhase::Serving,
            action: LoopAction::Continue,
            submits_event: false,
        },
        (ReporterPhase::Exited, _) => ServeStep {
            phase: ReporterPhase::Exited,
            action: LoopAction::Exit,
            submits_event: false,
        },
    }
}

/// The phase after the events `evs`, starting in `phase`.
pub open spec fn phase_after(phase: ReporterPhase, evs: Seq<ServeEvent>) -> ReporterPhase
    decreases evs.len(),
{
    if evs.len() == 0 {
        phase
    } else {
        phase_after(serve_next(phase, evs[0]).phase, evs.drop_first())
    }
}

/// The number of events submitted while the events `evs` are served from `phase`.
pub open spec fn submitted(phase: ReporterPhase, evs: Seq<ServeEvent>) -> nat
    decreases evs.len(),
{
    if evs.len() == 0 {
        0
    } else {
        (if serve_next(phase, evs[0]).submits_event { 1nat } else { 0nat }) + submitted(
            serve_next(phase, evs[0]).phase,
            evs.drop_first(),
        )
    }
}

proof fn lemma_exited_submits_nothing(evs: Seq<ServeEvent>)
    ensures
        submitted(ReporterPhase::Exited, evs) == 0,
        phase_after(ReporterPhase::Exited, evs) == ReporterPhase::Exited,
    decreases evs.len(),
{
    if evs.len() > 0 {
        lemma_exited_submits_nothing(evs.drop_first());
    }
}

/// A session submits at most one event, whatever it observes; where it submits
/// one, it has exited.
pub proof fn lemma_single_shot(phase: ReporterPhase, evs: Seq<ServeEvent>)
    ensures
        submitted(phase, evs) <= 1,
        submitted(phase, evs) == 1 ==> phase_after(phase, evs) == ReporterPhase::Exited,
    decreases evs.len(),
{
    if evs.len() > 0 {
        let s = serve_next(phase, evs[0]);
        if s.submits_event {
            lemma_exited_submits_nothing(evs.drop_first());
        } else {
            lemma_single_shot(s.phase, evs.drop_first());
        }
    }
}

/// A session in which no dump is produced submits no event.
pub proof fn lemma_no_dump_no_event(phase: ReporterPhase, evs: Seq<ServeEvent>)
    requires
        forall|i: int| 0 <= i < evs.len() ==> evs[i] != ServeEvent::DumpProduced,
    ensures
        submitted(phase, evs) == 0,
    decreases evs.len(),
{
    if evs.len() > 0 {
        lemma_no_dump_no_event(serve_next(phase, evs[0]).phase, evs.drop_first());
    }
}

/// `n` scope messages.
pub open spec fn messages(n: nat) -> Seq<ServeEvent> {
    Seq::new(n, |i: int| ServeEvent::Message)
}

/// A client that connects, sends any messages and disconnects without asking
/// for a dump leaves a reporter that has exited and submitted nothing.
pub proof fn lemma_clean_exit(msgs: nat)
    ensures
        ({
            let evs = seq![ServeEvent::ClientConnected] + messages(msgs)
                + seq![ServeEvent::ClientDisconnected];
            phase_after(ReporterPhase::AwaitConnection, evs) == ReporterPhase::Exited
                && submitted(ReporterPhase::AwaitConnection, evs) == 0
        }),
{
    let evs = seq![ServeEvent::ClientConnected] + messages(msgs) + seq![
        ServeEvent::ClientDisconnected,
    ];
    lemma_no_dump_no_event(ReporterPhase::AwaitConnection, evs);
    lemma_messages_then_disconnect(msgs);
    assert(evs[0] == ServeEvent::ClientConnected);
    assert(evs.drop_first() =~= messages(msgs) + seq![ServeEvent::ClientDisconnected]);
}

proof fn lemma_messages_then_disconnect(msgs: nat)
    ensures
        phase_after(
            ReporterPhase::Serving,
            messages(msgs) + seq![ServeEvent::ClientDisconnected],
        ) == ReporterPhase::Exited,
    decreases msgs,
{
    let evs = messages(msgs) + seq![ServeEvent::ClientDisconnected];
    if msgs > 0 {
        assert(evs[0] == ServeEvent::Message);
        lemma_messages_then_disconnect((msgs - 1) as nat);
        assert(evs.drop_first() =~= messages((msgs - 1) as nat) + seq![
            ServeEvent::ClientDisconnected,
        ]);
        assert(phase_after(ReporterPhase::Serving, evs) == phase_after(ReporterPhase::Serving, evs.drop_first()));
    } else {
        assert(evs[0] == ServeEvent::ClientDisconnected);
        assert(evs.drop_first() =~= Seq::<ServeEvent>::empty());
        assert(phase_after(ReporterPhase::Exited, evs.drop_first()) == ReporterPhase::Exited);
    }
}

/// A served client that goes silent past the stale timeout ends the session:
/// the reporter exits, submits nothing, and submits nothing afterwards.
pub proof fn lemma_stale_exit(evs: Seq<ServeEvent>)
    ensures
        serve_next(ReporterPhase::Serving, ServeEvent::StaleTimeout) == (ServeStep {
            phase: ReporterPhase::Exited,
            action: LoopAction::Exit,
            submits_event: false,
        }),
        submitted(ReporterPhase::Serving, seq![ServeEvent::StaleTimeout] + evs) == 0,
        phase_after(ReporterPhase::Serving, seq![ServeEvent::StaleTimeout] + evs) == ReporterPhase::Exited,
{
    let all = seq![ServeEvent::StaleTimeout] + evs;
    assert(all[0] == ServeEvent::StaleTimeout);
    assert(all.drop_first() =~= evs);
    lemma_exited_submits_nothing(evs);
}

} // verus!
