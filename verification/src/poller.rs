//! Decision logic of the polling jobs and of the supervisor.
//!
//! The pollers are long-running jobs driven by a scheduler outside this
//! crate; what is verified here is what each cycle decides: which observed
//! slots are published, which block results are forwarded, how a poller
//! reacts to an error, and what the supervisor does when the job group
//! stops.

use vstd::prelude::*;

use crate::block_processor::BlockProcessorResult;
use crate::block_store::Slot;

verus! {

/// How long the supervisor waits before restarting the job group, in
/// milliseconds.
pub const RESTART_COOLDOWN_MS: u64 = 20_000;

/// State of the slot poller: the last slot it published.
pub struct SlotPoller {
    last_published: Option<Slot>,
}

impl SlotPoller {
    /// The last slot published, if any.
    pub closed spec fn last(self) -> Option<Slot> {
        self.last_published
    }

    pub fn new() -> (p: Self)
        ensures
            p.last() is None,
    {
        SlotPoller { last_published: None }
    }

    /// Decides whether an observed slot is published: duplicates and older
    /// slots are suppressed, so the published slots are strictly
    /// increasing.
    pub fn observe_slot(&mut self, slot: Slot) -> (publish: bool)
        ensures
            publish == match old(self).last() {
                None => true,
                Some(prev) => slot > prev,
            },
            final(self).last() == if publish {
                Some(slot)
            } else {
                old(self).last()
            },
    {
        let publish = match self.last_published {
            None => true,
            Some(prev) => slot > prev,
        };
        if publish {
            self.last_published = Some(slot);
        }
        publish
    }
}

/// The block poller forwards a processed block exactly when it is not the
/// invalid-block sentinel.
pub fn should_publish_block(r: &BlockProcessorResult) -> (publish: bool)
    ensures
        publish == !r.invalid_block,
{
    !r.invalid_block
}

/// What one polling cycle reported.
#[derive(Clone, Copy, Debug, PartialEq, Eq, Structural)]
pub enum PollerEvent {
    CycleOk,
    TransientError,
    FatalError,
}

/// Whether a poller keeps running.
#[derive(Clone, Copy, Debug, PartialEq, Eq, Structural)]
pub enum PollerStatus {
    Running,
    Terminated,
}

/// A poller survives a transient error — it logs and retries on the next
/// cycle — and terminates only on a fatal one; termination is observed by
/// the supervisor, never healed here.
pub fn poller_step(status: PollerStatus, event: PollerEvent) -> (next: PollerStatus)
    ensures
        next == match (status, event) {
            (PollerStatus::Running, PollerEvent::FatalError) => PollerStatus::Terminated,
            (PollerStatus::Running, _) => PollerStatus::Running,
            (PollerStatus::Terminated, _) => PollerStatus::Terminated,
        },
{
    match (status, event) {
        (PollerStatus::Running, PollerEvent::FatalError) => PollerStatus::Terminated,
        (PollerStatus::Running, _) => PollerStatus::Running,
        (PollerStatus::Terminated, _) => PollerStatus::Terminated,
    }
}

/// What the supervisor observed of the job group.
#[derive(Clone, Copy, Debug, PartialEq, Eq, Structural)]
pub enum SupervisorEvent {
    /// The group completed early, for any reason — success or failure.
    GroupExited,
    /// The operator asked for a shutdown.
    Interrupted,
}

/// What the supervisor does next.
#[derive(Clone, Copy, Debug, PartialEq, Eq, Structural)]
pub enum SupervisorAction {
    /// Rebuild and restart the whole group after this cooldown.
    RestartAfterCooldown { cooldown_ms: u64 },
    /// Clean shutdown.
    Shutdown,
}

/// Whole-process supervision: any early completion of the job group —
/// success or failure alike — restarts the entire group after a fixed
/// cooldown and counts one restart; an interrupt shuts down cleanly.
pub struct Supervisor {
    restarts: u64,
}

impl Supervisor {
    /// How many whole-group restarts were decided so far; the counter only
    /// grows.
    pub closed spec fn restart_count(self) -> u64 {
        self.restarts
    }

    pub fn new() -> (s: Self)
        ensures
            s.restart_count() == 0,
    {
        Supervisor { restarts: 0 }
    }

    /// The counter's current value, for the observability side-channel.
    pub fn restarts(&self) -> (c: u64)
        ensures
            c == self.restart_count(),
    {
        self.restarts
    }

    /// Decides what happens after the job group stopped.
    pub fn on_group_event(&mut self, event: SupervisorEvent) -> (a: SupervisorAction)
        requires
            old(self).restart_count() < u64::MAX,
        ensures
            match event {
                SupervisorEvent::GroupExited => {
                    &&& a == (SupervisorAction::RestartAfterCooldown {
                        cooldown_ms: RESTART_COOLDOWN_MS,
                    })
                    &&& final(self).restart_count() == old(self).restart_count() + 1
                },
                SupervisorEvent::Interrupted => {
                    &&& a == SupervisorAction::Shutdown
                    &&& final(self).restart_count() == old(self).restart_count()
                },
            },
    {
        match event {
            SupervisorEvent::GroupExited => {
                self.restarts = self.restarts + 1;
                SupervisorAction::RestartAfterCooldown { cooldown_ms: RESTART_COOLDOWN_MS }
            },
            SupervisorEvent::Interrupted => SupervisorAction::Shutdown,
        }
    }
}

} // verus!
