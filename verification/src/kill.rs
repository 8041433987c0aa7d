//! The termination protocol for one process: ask politely with SIGTERM,
//! give it time, check whether it is still there, and only then force it
//! with SIGKILL.
//!
//! The protocol is a step function: the caller runs `kill -<signal> <pid>`
//! or waits as the returned [`KillAction`] says, and reports back what
//! happened as a [`KillEvent`].

use vstd::prelude::*;

verus! {

/// The polite termination signal.
pub const SIGTERM: u8 = 15;

/// The null signal: delivers nothing, only tells whether the process exists.
pub const SIGPROBE: u8 = 0;

/// The forced termination signal.
pub const SIGKILL: u8 = 9;

/// Milliseconds a process is given to exit after SIGTERM.
pub const TERM_GRACE_MS: u64 = 500;

/// Where a termination stands.
#[derive(Clone, Copy, PartialEq, Eq, Structural, Debug)]
pub enum KillStep {
    /// Nothing done yet.
    Start,
    /// SIGTERM was requested.
    TermSent,
    /// SIGTERM was delivered; waiting for the process to exit.
    Waiting,
    /// The grace period is over; the existence probe was requested.
    Probed,
    /// The process outlived SIGTERM; SIGKILL was requested.
    KillSent,
    /// The outcome has been reported.
    Done,
}

/// What the caller observed.
#[derive(Clone, Copy, PartialEq, Eq, Structural, Debug)]
pub enum KillEvent {
    /// The termination is to start.
    Begin,
    /// The requested `kill` command ran (`spawned`: it could be started at
    /// all; `success`: it exited successfully).
    Ran { spawned: bool, success: bool },
    /// The requested wait is over.
    WaitDone,
}

/// Why a termination failed.
#[derive(Clone, Copy, PartialEq, Eq, Structural, Debug)]
pub enum KillFailure {
    /// A `kill` command could not be started.
    CommandFailed,
    /// SIGTERM could not be delivered.
    TermRefused,
    /// SIGKILL could not be delivered.
    KillRefused,
}

/// What the caller is to do next.
#[derive(Clone, Copy, PartialEq, Eq, Debug)]
pub enum KillAction {
    /// Run `kill -<signal> <pid>` and report how it went.
    Signal(u8),
    /// Sleep this many milliseconds and report when done.
    Wait(u64),
    /// The termination is over, with this outcome.
    Finish(Result<(), KillFailure>),
    /// The event does not belong to this step; nothing to do.
    Idle,
}

/// One step of the protocol: from where it stands and what was observed,
/// where it goes and what the caller is to do.
pub open spec fn kill_transition(step: KillStep, ev: KillEvent) -> (KillStep, KillAction) {
    match (step, ev) {
        (KillStep::Start, KillEvent::Begin) => (KillStep::TermSent, KillAction::Signal(SIGTERM)),
        (KillStep::TermSent, KillEvent::Ran { spawned, success }) => if !spawned {
            (KillStep::Done, KillAction::Finish(Err(KillFailure::CommandFailed)))
        } else if !success {
            (KillStep::Done, KillAction::Finish(Err(KillFailure::TermRefused)))
        } else {
            (KillStep::Waiting, KillAction::Wait(TERM_GRACE_MS))
        },
        (KillStep::Waiting, KillEvent::WaitDone) => (KillStep::Probed, KillAction::Signal(SIGPROBE)),
        (KillStep::Probed, KillEvent::Ran { spawned, success }) => if spawned && success {
            (KillStep::KillSent, KillAction::Signal(SIGKILL))
        } else {
            (KillStep::Done, KillAction::Finish(Ok(())))
        },
        (KillStep::KillSent, KillEvent::Ran { spawned, success }) => if !spawned {
            (KillStep::Done, KillAction::Finish(Err(KillFailure::CommandFailed)))
        } else if !success {
            (KillStep::Done, KillAction::Finish(Err(KillFailure::KillRefused)))
        } else {
            (KillStep::Done, KillAction::Finish(Ok(())))
        },
        _ => (step, KillAction::Idle),
    }
}

/// One step of the protocol.
pub fn kill_step(step: KillStep, ev: KillEvent) -> (r: (KillStep, KillAction))
    ensures
        r == kill_transition(step, ev),
{
    match step {
        KillStep::Start => match ev {
            KillEvent::Begin => (KillStep::TermSent, KillAction::Signal(SIGTERM)),
            _ => (step, KillAction::Idle),
        },
        KillStep::TermSent => match ev {
            KillEvent::Ran { spawned, success } => if !spawned {
                (KillStep::Done, KillAction::Finish(Err(KillFailure::CommandFailed)))
            } else if !success {
                (KillStep::Done, KillAction::Finish(Err(KillFailure::TermRefused)))
            } else {
                (KillStep::Waiting, KillAction::Wait(TERM_GRACE_MS))
            },
            _ => (step, KillAction::Idle),
        },
        KillStep::Waiting => match ev {
            KillEvent::WaitDone => (KillStep::Probed, KillAction::Signal(SIGPROBE)),
            _ => (step, KillAction::Idle),
        },
        KillStep::Probed => match ev {
            KillEvent::Ran { spawned, success } => if spawned && success {
                (KillStep::KillSent, KillAction::Signal(SIGKILL))
            } else {
                (KillStep::Done, KillAction::Finish(Ok(())))
            },
            _ => (step, KillAction::Idle),
        },
        KillStep::KillSent => match ev {
            KillEvent::Ran { spawned, success } => if !spawned {
                (KillStep::Done, KillAction::Finish(Err(KillFailure::CommandFailed)))
            } else if !success {
                (KillStep::Done, KillAction::Finish(Err(KillFailure::KillRefused)))
            } else {
                (KillStep::Done, KillAction::Finish(Ok(())))
            },
            _ => (step, KillAction::Idle),
        },
        KillStep::Done => (step, KillAction::Idle),
    }
}

/// Where the protocol stands and what it asked for, after the events of
/// `events` in turn, from the start.
pub open spec fn run_kill(events: Seq<KillEvent>) -> (KillStep, Seq<KillAction>)
    decreases events.len(),
{
    if events.len() == 0 {
        (KillStep::Start, Seq::empty())
    } else {
        let (step, actions) = run_kill(events.drop_last());
        let (next, action) = kill_transition(step, events.last());
        (next, actions.push(action))
    }
}

/// The signals requested among `actions`, in order.
pub open spec fn signals_of(actions: Seq<KillAction>) -> Seq<u8>
    decreases actions.len(),
{
    if actions.len() == 0 {
        Seq::empty()
    } else {
        let rest = signals_of(actions.drop_last());
        match actions.last() {
            KillAction::Signal(s) => rest.push(s),
            _ => rest,
        }
    }
}

/// Whether an outcome has been reported among `actions`.
pub open spec fn finished(actions: Seq<KillAction>) -> bool {
    exists|i: int| 0 <= i < actions.len() && #[trigger] actions[i] is Finish
}

/// The signals requested so far at each step, as long as no outcome was
/// reported.
pub open spec fn signals_at(step: KillStep) -> Seq<u8> {
    match step {
        KillStep::Start => Seq::empty(),
        KillStep::TermSent => seq![SIGTERM],
        KillStep::Waiting => seq![SIGTERM],
        KillStep::Probed => seq![SIGTERM, SIGPROBE],
        KillStep::KillSent => seq![SIGTERM, SIGPROBE, SIGKILL],
        KillStep::Done => Seq::empty(),
    }
}

/// The full order of signals: SIGTERM, the probe, SIGKILL.
pub open spec fn signal_order() -> Seq<u8> {
    seq![SIGTERM, SIGPROBE, SIGKILL]
}

pub open spec fn is_prefix(a: Seq<u8>, b: Seq<u8>) -> bool {
    a.len() <= b.len() && a == b.take(a.len() as int)
}

proof fn lemma_run_invariant(events: Seq<KillEvent>)
    ensures
        ({
            let (step, actions) = run_kill(events);
            &&& is_prefix(signals_of(actions), signal_order())
            &&& (step != KillStep::Done ==> signals_of(actions) == signals_at(step))
            &&& (step != KillStep::Done <==> !finished(actions))
        }),
    decreases events.len(),
{
    assert(signal_order().take(0) =~= Seq::<u8>::empty());
    assert(signal_order().take(1) =~= seq![SIGTERM]);
    assert(signal_order().take(2) =~= seq![SIGTERM, SIGPROBE]);
    assert(signal_order().take(3) =~= seq![SIGTERM, SIGPROBE, SIGKILL]);
    if events.len() > 0 {
        let prev = events.drop_last();
        lemma_run_invariant(prev);
        let (step, actions) = run_kill(prev);
        let (next, action) = kill_transition(step, events.last());
        let all = actions.push(action);
        assert(all.drop_last() =~= actions);
        assert(run_kill(events) == (next, all));
        assert(finished(all) <==> (finished(actions) || action is Finish)) by {
            if finished(all) && !(action is Finish) {
                let i = choose|i: int| 0 <= i < all.len() && #[trigger] all[i] is Finish;
                assert(actions[i] is Finish);
            }
            if finished(actions) {
                let i = choose|i: int| 0 <= i < actions.len() && #[trigger] actions[i] is Finish;
                assert(all[i] is Finish);
            }
            if action is Finish {
                assert(all[all.len() - 1] is Finish);
            }
        }
        assert(seq![SIGTERM] =~= Seq::<u8>::empty().push(SIGTERM));
        assert(seq![SIGTERM, SIGPROBE] =~= seq![SIGTERM].push(SIGPROBE));
        assert(seq![SIGTERM, SIGPROBE, SIGKILL] =~= seq![SIGTERM, SIGPROBE].push(SIGKILL));
        assert(signals_of(all) == match action {
            KillAction::Signal(sig) => signals_of(actions).push(sig),
            _ => signals_of(actions),
        });
    } else {
        assert(!finished(Seq::<KillAction>::empty()));
    }
}

/// The signals requested in any run are, in order, a prefix of SIGTERM,
/// the probe, SIGKILL: nothing is ever sent twice or out of order.
pub proof fn law_signals_follow_the_order(events: Seq<KillEvent>)
    ensures
        is_prefix(signals_of(run_kill(events).1), signal_order()),
{
    lemma_run_invariant(events);
}

/// SIGKILL is only requested in answer to a successful probe, after exactly
/// SIGTERM and the probe were requested.
pub proof fn law_sigkill_only_after_live_probe(events: Seq<KillEvent>)
    requires
        events.len() > 0,
        run_kill(events).1.last() == KillAction::Signal(SIGKILL),
    ensures
        run_kill(events.drop_last()).0 == KillStep::Probed,
        events.last() == (KillEvent::Ran { spawned: true, success: true }),
        signals_of(run_kill(events.drop_last()).1) == seq![SIGTERM, SIGPROBE],
{
    lemma_run_invariant(events.drop_last());
}

/// Once the outcome is reported, the protocol asks for nothing more.
pub proof fn law_nothing_after_finish(events: Seq<KillEvent>, ev: KillEvent)
    requires
        finished(run_kill(events).1),
    ensures
        run_kill(events.push(ev)).0 == KillStep::Done,
        run_kill(events.push(ev)).1.last() == KillAction::Idle,
{
    lemma_run_invariant(events);
    assert(events.push(ev).drop_last() =~= events);
}

/// A reported success means SIGTERM was delivered.
pub proof fn law_success_needs_delivered_term(events: Seq<KillEvent>)
    requires
        events.len() > 0,
        run_kill(events).1.last() == KillAction::Finish(Ok(())),
    ensures
        run_kill(events.drop_last()).0 == KillStep::Probed || run_kill(events.drop_last()).0
            == KillStep::KillSent,
{
}

/// Each step of the protocol in signal numbers: the start sends signal 15;
/// a delivered 15 is followed by a 500 ms wait, after which signal 0 probes
/// the process; a live process then gets signal 9, a gone one (or a failed
/// probe) ends in success; a `kill` that cannot start fails the run, a 15
/// or 9 that is not delivered fails it as refused, a delivered 9 succeeds.
/// Any other event changes nothing and asks for nothing.
pub proof fn law_protocol_steps(step: KillStep, ev: KillEvent, spawned: bool, success: bool)
    ensures
        kill_transition(KillStep::Start, KillEvent::Begin) == (KillStep::TermSent, KillAction::Signal(15u8)),
        kill_transition(KillStep::TermSent, KillEvent::Ran { spawned: true, success: true }) == (
            KillStep::Waiting,
            KillAction::Wait(500u64),
        ),
        kill_transition(KillStep::TermSent, KillEvent::Ran { spawned: false, success }) == (
            KillStep::Done,
            KillAction::Finish(Err(KillFailure::CommandFailed)),
        ),
        kill_transition(KillStep::TermSent, KillEvent::Ran { spawned: true, success: false }) == (
            KillStep::Done,
            KillAction::Finish(Err(KillFailure::TermRefused)),
        ),
        kill_transition(KillStep::Waiting, KillEvent::WaitDone) == (KillStep::Probed, KillAction::Signal(0u8)),
        kill_transition(KillStep::Probed, KillEvent::Ran { spawned: true, success: true }) == (
            KillStep::KillSent,
            KillAction::Signal(9u8),
        ),
        !(spawned && success) ==> kill_transition(KillStep::Probed, KillEvent::Ran { spawned, success })
            == (KillStep::Done, KillAction::Finish(Ok(()))),
        kill_transition(KillStep::KillSent, KillEvent::Ran { spawned: false, success }) == (
            KillStep::Done,
            KillAction::Finish(Err(KillFailure::CommandFailed)),
        ),
        kill_transition(KillStep::KillSent, KillEvent::Ran { spawned: true, success: false }) == (
            KillStep::Done,
            KillAction::Finish(Err(KillFailure::KillRefused)),
        ),
        kill_transition(KillStep::KillSent, KillEvent::Ran { spawned: true, success: true }) == (
            KillStep::Done,
            KillAction::Finish(Ok(())),
        ),
        !((step == KillStep::Start && ev == KillEvent::Begin) || (step == KillStep::Waiting && ev
            == KillEvent::WaitDone) || ((step == KillStep::TermSent || step == KillStep::Probed || step
            == KillStep::KillSent) && ev is Ran)) ==> kill_transition(step, ev) == (step, KillAction::Idle),
        signal_order() == seq![15u8, 0u8, 9u8],
{
}

} // verus!
