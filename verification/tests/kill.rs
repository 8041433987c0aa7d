use ra_killer::kill::{kill_step, KillAction, KillEvent, KillFailure, KillStep, SIGKILL, SIGPROBE, SIGTERM, TERM_GRACE_MS};

fn ran(spawned: bool, success: bool) -> KillEvent {
    KillEvent::Ran { spawned, success }
}

/// Runs the protocol on `outcomes` (one per requested command) and returns
/// the signals requested and the outcome.
fn drive(outcomes: &[KillEvent]) -> (Vec<u8>, Option<Result<(), KillFailure>>) {
    let mut step = KillStep::Start;
    let mut event = KillEvent::Begin;
    let mut signals = Vec::new();
    let mut next_outcome = 0;
    for _ in 0..10 {
        let (s, action) = kill_step(step, event);
        step = s;
        match action {
            KillAction::Signal(sig) => {
                signals.push(sig);
                event = outcomes[next_outcome];
                next_outcome += 1;
            }
            KillAction::Wait(ms) => {
                assert_eq!(ms, TERM_GRACE_MS);
                event = KillEvent::WaitDone;
            }
            KillAction::Finish(r) => {
                assert_eq!(step, KillStep::Done);
                return (signals, Some(r));
            }
            KillAction::Idle => return (signals, None),
        }
    }
    (signals, None)
}

#[test]
fn process_exits_after_sigterm() {
    // The probe fails: the process is gone.
    let (signals, outcome) = drive(&[ran(true, true), ran(true, false)]);
    assert_eq!(signals, vec![SIGTERM, SIGPROBE]);
    assert_eq!(outcome, Some(Ok(())));
}

#[test]
fn surviving_process_gets_sigkill() {
    let (signals, outcome) = drive(&[ran(true, true), ran(true, true), ran(true, true)]);
    assert_eq!(signals, vec![SIGTERM, SIGPROBE, SIGKILL]);
    assert_eq!(outcome, Some(Ok(())));
    let (signals, outcome) = drive(&[ran(true, true), ran(true, true), ran(true, false)]);
    assert_eq!(signals, vec![SIGTERM, SIGPROBE, SIGKILL]);
    assert_eq!(outcome, Some(Err(KillFailure::KillRefused)));
    let (_, outcome) = drive(&[ran(true, true), ran(true, true), ran(false, false)]);
    assert_eq!(outcome, Some(Err(KillFailure::CommandFailed)));
}

#[test]
fn refused_sigterm_fails_at_once() {
    let (signals, outcome) = drive(&[ran(true, false)]);
    assert_eq!(signals, vec![SIGTERM]);
    assert_eq!(outcome, Some(Err(KillFailure::TermRefused)));
    let (signals, outcome) = drive(&[ran(false, false)]);
    assert_eq!(signals, vec![SIGTERM]);
    assert_eq!(outcome, Some(Err(KillFailure::CommandFailed)));
}

#[test]
fn probe_that_cannot_run_counts_as_gone() {
    let (signals, outcome) = drive(&[ran(true, true), ran(false, false)]);
    assert_eq!(signals, vec![SIGTERM, SIGPROBE]);
    assert_eq!(outcome, Some(Ok(())));
}

#[test]
fn stray_events_are_ignored() {
    assert_eq!(kill_step(KillStep::Start, KillEvent::WaitDone), (KillStep::Start, KillAction::Idle));
    assert_eq!(kill_step(KillStep::Waiting, ran(true, true)), (KillStep::Waiting, KillAction::Idle));
    assert_eq!(kill_step(KillStep::Done, KillEvent::Begin), (KillStep::Done, KillAction::Idle));
    assert_eq!(kill_step(KillStep::Start, KillEvent::Begin), (KillStep::TermSent, KillAction::Signal(15)));
}
