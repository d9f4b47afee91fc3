//! The bootstrap protocol as a state machine.
//!
//! One invocation moves through a strict order of phases: resolve the
//! image offset, let a meta-command claim the invocation or create the
//! mount point, wait for the mount to conclude, then either hold the
//! mount open or prepare the environment and replace the process image.
//! Any step may instead fail terminally.  The machine counts mount-point
//! creations, and its invariant shows that an invocation never owns more
//! than one Mount Session.

use vstd::prelude::*;

verus! {

/// Where an invocation stands in the bootstrap protocol.
#[derive(Clone, Copy, Debug, PartialEq, Eq, Structural)]
pub enum Phase {
    /// Nothing resolved yet.
    Start,
    /// The image offset is known.
    OffsetResolved,
    /// A meta-command claimed the invocation; terminal.
    MetaHandled,
    /// The mount point exists and the worker was started.
    MountPending,
    /// The worker concluded and the image is bound at the mount point.
    MountReady,
    /// The mount is held open for external consumers; terminal on
    /// interruption.
    HoldForExternalMount,
    /// The launch environment is built and applied.
    EnvironmentPrepared,
    /// The process image was replaced; terminal.
    ProcessReplaced,
    /// A step failed; terminal.
    Failed,
}

/// What happened next, as the orchestrator observes it.
#[derive(Clone, Copy, Debug, PartialEq, Eq, Structural)]
pub enum Event {
    /// The Image Locator returned an offset.
    OffsetComputed,
    /// The Meta-Command Dispatcher claimed the invocation.
    MetaClaimed,
    /// The mount-point directory was created and the worker started.
    MountPointCreated,
    /// The worker's startup concluded; the payload says whether the
    /// mount was established.
    MountConcluded(bool),
    /// The hold mode took over the mount.
    HoldRequested,
    /// The launch environment was built and applied.
    EnvironmentBuilt,
    /// The process image was replaced.
    Replaced,
    /// The step failed.
    StepFailed,
}

/// One invocation's protocol state.
#[derive(Clone, Copy, Debug, PartialEq, Eq, Structural)]
pub struct Invocation {
    pub phase: Phase,
    /// How many mount-point directories this invocation has created.
    pub sessions_created: u64,
}

/// The state a fresh invocation starts in.
pub open spec fn spec_init() -> Invocation {
    Invocation { phase: Phase::Start, sessions_created: 0 }
}

/// Returns the starting state of an invocation.
pub fn init() -> (r: Invocation)
    ensures
        r == spec_init(),
{
    Invocation { phase: Phase::Start, sessions_created: 0 }
}

/// The protocol's transition relation.  An event out of order is a
/// protocol violation and fails the invocation; no transition creates a
/// second mount point.
pub open spec fn spec_step(s: Invocation, e: Event) -> Invocation {
    match (s.phase, e) {
        (Phase::Start, Event::OffsetComputed) => Invocation {
            phase: Phase::OffsetResolved,
            ..s
        },
        (Phase::OffsetResolved, Event::MetaClaimed) => Invocation {
            phase: Phase::MetaHandled,
            ..s
        },
        (Phase::OffsetResolved, Event::MountPointCreated) => Invocation {
            phase: Phase::MountPending,
            sessions_created: if s.sessions_created < u64::MAX {
                (s.sessions_created + 1) as u64
            } else {
                s.sessions_created
            },
        },
        (Phase::MountPending, Event::MountConcluded(ok)) => Invocation {
            phase: if ok {
                Phase::MountReady
            } else {
                Phase::Failed
            },
            ..s
        },
        (Phase::MountReady, Event::HoldRequested) => Invocation {
            phase: Phase::HoldForExternalMount,
            ..s
        },
        (Phase::MountReady, Event::EnvironmentBuilt) => Invocation {
            phase: Phase::EnvironmentPrepared,
            ..s
        },
        (Phase::EnvironmentPrepared, Event::Replaced) => Invocation {
            phase: Phase::ProcessReplaced,
            ..s
        },
        _ => Invocation { phase: Phase::Failed, ..s },
    }
}

/// Takes one protocol step.
pub fn step(s: Invocation, e: Event) -> (r: Invocation)
    ensures
        r == spec_step(s, e),
{
    match (s.phase, e) {
        (Phase::Start, Event::OffsetComputed) => Invocation {
            phase: Phase::OffsetResolved,
            ..s
        },
        (Phase::OffsetResolved, Event::MetaClaimed) => Invocation {
            phase: Phase::MetaHandled,
            ..s
        },
        (Phase::OffsetResolved, Event::MountPointCreated) => Invocation {
            phase: Phase::MountPending,
            sessions_created: if s.sessions_created < u64::MAX {
                s.sessions_created + 1
            } else {
                s.sessions_created
            },
        },
        (Phase::MountPending, Event::MountConcluded(ok)) => Invocation {
            phase: if ok {
                Phase::MountReady
            } else {
                Phase::Failed
            },
            ..s
        },
        (Phase::MountReady, Event::HoldRequested) => Invocation {
            phase: Phase::HoldForExternalMount,
            ..s
        },
        (Phase::MountReady, Event::EnvironmentBuilt) => Invocation {
            phase: Phase::EnvironmentPrepared,
            ..s
        },
        (Phase::EnvironmentPrepared, Event::Replaced) => Invocation {
            phase: Phase::ProcessReplaced,
            ..s
        },
        _ => Invocation { phase: Phase::Failed, ..s },
    }
}

/// Phases an invocation can only reach once its mount point exists.
pub open spec fn spec_owns_session(p: Phase) -> bool {
    p == Phase::MountPending || p == Phase::MountReady || p == Phase::HoldForExternalMount
        || p == Phase::EnvironmentPrepared || p == Phase::ProcessReplaced
}

/// The protocol invariant: never more than one mount point, none before
/// the protocol created it, exactly one from then on.
pub open spec fn spec_inv(s: Invocation) -> bool {
    &&& s.sessions_created <= 1
    &&& (s.phase == Phase::Start || s.phase == Phase::OffsetResolved || s.phase
        == Phase::MetaHandled ==> s.sessions_created == 0)
    &&& (spec_owns_session(s.phase) ==> s.sessions_created == 1)
}

pub proof fn lemma_init_inv()
    ensures
        spec_inv(spec_init()),
{
}

pub proof fn lemma_step_preserves_inv(s: Invocation, e: Event)
    requires
        spec_inv(s),
    ensures
        spec_inv(spec_step(s, e)),
{
}

/// The state after a whole run of observed events.
pub open spec fn spec_run(events: Seq<Event>) -> Invocation
    decreases events.len(),
{
    if events.len() == 0 {
        spec_init()
    } else {
        spec_step(spec_run(events.drop_last()), events.last())
    }
}

/// However an invocation runs, it creates at most one Mount Session; and
/// once it is past mount-point creation and not failed, it has created
/// exactly one.
pub proof fn lemma_at_most_one_session(events: Seq<Event>)
    ensures
        spec_inv(spec_run(events)),
        spec_run(events).sessions_created <= 1,
        spec_owns_session(spec_run(events).phase) ==> spec_run(events).sessions_created == 1,
    decreases events.len(),
{
    if events.len() == 0 {
    } else {
        lemma_at_most_one_session(events.drop_last());
        lemma_step_preserves_inv(spec_run(events.drop_last()), events.last());
    }
}

} // verus!
