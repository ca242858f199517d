//! The scheduler: the only component that drives the simulation forward in
//! time. An outer iteration ticks the world and computes a snapshot; an
//! inner wait multiplexes four events until the next tick timer fires:
//! the timer (advances time), publish-readiness (at most one snapshot goes
//! out per tick), player admission (takes effect next tick), and the stop
//! signal (terminal).
//!
//! The shell owns the channels and the timer; it feeds each received event
//! into [`Scheduler::handle_event`] and performs the returned action. The
//! publication protocol itself is modeled by [`protocol_step`], and the
//! protocol lemmas below prove the at-most-once-per-tick guarantee.

use vstd::prelude::*;

use crate::input::{controller_signal, InputCenter, Controller};
use crate::world::{command_for, PhysicalStatus, Tank, TankCommand, TankInstance, spawn_instance};

verus! {

/// One physics timestep, 1/90 s, in nanoseconds (truncated).
pub const PHYSICAL_DT_NANOS: u64 = 11111111;

/// Scheduler life-cycle: ticking, or terminally stopped.
#[derive(Clone, Copy, Debug, PartialEq, Eq, Structural)]
pub enum SchedulerPhase {
    AwaitingTick,
    Stopped,
}

/// One event delivered by the shell's multiplexed wait.
pub enum SchedulerEvent {
    /// The tick timer fired: the only event that advances simulated time.
    TickTimer,
    /// The consumer is ready to receive a snapshot.
    PublishReady,
    /// A new player asked to join with this controller.
    PlayerAdmission(Controller),
    /// Cooperative shutdown was requested.
    StopSignal,
    /// A channel peer is gone; treated as a normal shutdown signal.
    ChannelDisconnected,
}

/// The snapshot batch published to the consumer: the tick it belongs to and
/// one entry per tank, in tank order.
pub struct Snapshot {
    pub seq_number: u32,
    pub tanks: Vec<TankInstance>,
}

/// What the shell must do after an event was handled.
pub enum SchedulerAction {
    /// Apply one command per tank to the physics engine, step it, and write
    /// the integrated states back.
    StepPhysics(Vec<TankCommand>),
    /// Send exactly this snapshot to the consumer, once.
    Publish(Snapshot),
    /// Build the rigid body and collider of the tank just admitted.
    CreateTankBody,
    /// Nothing to perform.
    Idle,
    /// Leave the scheduling loop.
    Terminate,
}

/// Scheduler state: the simulation world it owns, its phase, and whether
/// the current tick's snapshot has already gone out.
pub struct Scheduler {
    pub physical: PhysicalStatus,
    pub phase: SchedulerPhase,
    pub published_this_tick: bool,
}

/// Abstract state of the publication protocol.
pub struct ProtocolState {
    pub seq: nat,
    pub published: bool,
    pub stopped: bool,
}

/// The aspect of an event the publication protocol sees.
#[derive(Clone, Copy, Debug, PartialEq, Eq, Structural)]
pub enum ProtocolEvent {
    Tick,
    Publish,
    Admit,
    Stop,
}

/// One protocol transition: a tick advances the counter and re-arms
/// publication; a publish disarms it; admission changes nothing; stop is
/// terminal and absorbs every further event.
pub open spec fn protocol_step(s: ProtocolState, e: ProtocolEvent) -> ProtocolState {
    if s.stopped {
        s
    } else {
        match e {
            ProtocolEvent::Tick => ProtocolState { seq: s.seq + 1, published: false, stopped: false },
            ProtocolEvent::Publish => ProtocolState { seq: s.seq, published: true, stopped: false },
            ProtocolEvent::Admit => s,
            ProtocolEvent::Stop => ProtocolState { seq: s.seq, published: s.published, stopped: true },
        }
    }
}

/// The protocol state after a whole run of events.
pub open spec fn protocol_run(s: ProtocolState, evs: Seq<ProtocolEvent>) -> ProtocolState
    decreases evs.len(),
{
    if evs.len() == 0 {
        s
    } else {
        protocol_run(protocol_step(s, evs[0]), evs.drop_first())
    }
}

/// The tick counts the consumer observes: one entry per effective publish,
/// in order.
pub open spec fn published_seqs(s: ProtocolState, evs: Seq<ProtocolEvent>) -> Seq<nat>
    decreases evs.len(),
{
    if evs.len() == 0 {
        Seq::empty()
    } else {
        let rest = published_seqs(protocol_step(s, evs[0]), evs.drop_first());
        if evs[0] is Publish && !s.published && !s.stopped {
            seq![s.seq] + rest
        } else {
            rest
        }
    }
}

/// No tick timer fires anywhere in the run.
pub open spec fn no_tick(evs: Seq<ProtocolEvent>) -> bool {
    forall|k: int| 0 <= k < evs.len() ==> !((#[trigger] evs[k]) is Tick)
}

/// The protocol aspect of a scheduler state.
pub open spec fn protocol_view(s: &Scheduler) -> ProtocolState {
    ProtocolState {
        seq: s.physical.seq_number as nat,
        published: s.published_this_tick,
        stopped: s.phase is Stopped,
    }
}

/// The protocol aspect of a scheduler event.
pub open spec fn event_kind(e: &SchedulerEvent) -> ProtocolEvent {
    match *e {
        SchedulerEvent::TickTimer => ProtocolEvent::Tick,
        SchedulerEvent::PublishReady => ProtocolEvent::Publish,
        SchedulerEvent::PlayerAdmission(_) => ProtocolEvent::Admit,
        SchedulerEvent::StopSignal => ProtocolEvent::Stop,
        SchedulerEvent::ChannelDisconnected => ProtocolEvent::Stop,
    }
}

impl Scheduler {
    /// A scheduler over a fresh world: no tanks, tick zero, nothing
    /// published yet.
    pub fn new() -> (r: Scheduler)
        ensures
            r.physical.tanks@.len() == 0,
            r.physical.seq_number == 0,
            r.phase == SchedulerPhase::AwaitingTick,
            !r.published_this_tick,
    {
        Scheduler {
            physical: PhysicalStatus::new(),
            phase: SchedulerPhase::AwaitingTick,
            published_this_tick: false,
        }
    }

    /// Handle one multiplexed event. The returned action is everything the
    /// shell must perform; the state change follows the publication
    /// protocol exactly.
    pub fn handle_event(&mut self, input: &InputCenter, event: SchedulerEvent) -> (action:
        SchedulerAction)
        requires
            input.wf(),
            old(self).phase == SchedulerPhase::AwaitingTick,
            old(self).physical.seq_number < u32::MAX,
        ensures
            protocol_view(final(self)) == protocol_step(protocol_view(old(self)), event_kind(&event)),
            match event {
                SchedulerEvent::TickTimer => {
                    &&& final(self).physical.seq_number == old(self).physical.seq_number + 1
                    &&& final(self).physical.tanks == old(self).physical.tanks
                    &&& !final(self).published_this_tick
                    &&& final(self).phase == SchedulerPhase::AwaitingTick
                    &&& action matches SchedulerAction::StepPhysics(cmds) && cmds@.len() == old(
                        self,
                    ).physical.tanks@.len() && (forall|i: int|
                        0 <= i < cmds@.len() ==> cmds@[i] == command_for(
                            controller_signal(&old(self).physical.tanks@[i].controller, input),
                        ))
                },
                SchedulerEvent::PublishReady => {
                    &&& final(self).physical == old(self).physical
                    &&& final(self).phase == SchedulerPhase::AwaitingTick
                    &&& if old(self).published_this_tick {
                        *final(self) == *old(self) && action is Idle
                    } else {
                        &&& final(self).published_this_tick
                        &&& action matches SchedulerAction::Publish(snap) && snap.seq_number == old(
                            self,
                        ).physical.seq_number && snap.tanks@.len() == old(
                            self,
                        ).physical.tanks@.len() && (forall|i: int|
                            0 <= i < snap.tanks@.len() ==> snap.tanks@[i] == old(
                                self,
                            ).physical.tanks@[i].instance)
                    }
                },
                SchedulerEvent::PlayerAdmission(controller) => {
                    &&& final(self).physical.tanks@ == old(self).physical.tanks@.push(
                        (Tank { controller, instance: spawn_instance() }),
                    )
                    &&& final(self).physical.seq_number == old(self).physical.seq_number
                    &&& final(self).published_this_tick == old(self).published_this_tick
                    &&& final(self).phase == SchedulerPhase::AwaitingTick
                    &&& action is CreateTankBody
                },
                SchedulerEvent::StopSignal | SchedulerEvent::ChannelDisconnected => {
                    &&& final(self).physical == old(self).physical
                    &&& final(self).published_this_tick == old(self).published_this_tick
                    &&& final(self).phase == SchedulerPhase::Stopped
                    &&& action is Terminate
                },
            },
    {
        match event {
            SchedulerEvent::TickTimer => {
                let commands = self.physical.update_tick(input);
                self.published_this_tick = false;
                SchedulerAction::StepPhysics(commands)
            },
            SchedulerEvent::PublishReady => {
                if self.published_this_tick {
                    SchedulerAction::Idle
                } else {
                    self.published_this_tick = true;
                    let snap = Snapshot {
                        seq_number: self.physical.seq_number,
                        tanks: self.physical.snapshot(),
                    };
                    SchedulerAction::Publish(snap)
                }
            },
            SchedulerEvent::PlayerAdmission(controller) => {
                self.physical.add_player(controller);
                SchedulerAction::CreateTankBody
            },
            SchedulerEvent::StopSignal => {
                self.phase = SchedulerPhase::Stopped;
                SchedulerAction::Terminate
            },
            SchedulerEvent::ChannelDisconnected => {
                self.phase = SchedulerPhase::Stopped;
                SchedulerAction::Terminate
            },
        }
    }
}

/// A stopped protocol publishes nothing ever again.
proof fn lemma_stopped_publishes_nothing(s: ProtocolState, evs: Seq<ProtocolEvent>)
    requires
        s.stopped,
    ensures
        published_seqs(s, evs) == Seq::<nat>::empty(),
    decreases evs.len(),
{
    if evs.len() > 0 {
        lemma_stopped_publishes_nothing(protocol_step(s, evs[0]), evs.drop_first());
    }
}

/// Every observed tick count is at least the current one, and strictly
/// newer once the current tick's snapshot is out.
proof fn lemma_published_seqs_lower_bound(s: ProtocolState, evs: Seq<ProtocolEvent>)
    ensures
        forall|k: int|
            0 <= k < published_seqs(s, evs).len() ==> #[trigger] published_seqs(s, evs)[k]
                >= s.seq,
        s.published ==> forall|k: int|
            0 <= k < published_seqs(s, evs).len() ==> #[trigger] published_seqs(s, evs)[k] > s.seq,
    decreases evs.len(),
{
    if evs.len() > 0 {
        let e0 = evs[0];
        let s2 = protocol_step(s, e0);
        let tail = evs.drop_first();
        let rest = published_seqs(s2, tail);
        let whole = published_seqs(s, evs);
        lemma_published_seqs_lower_bound(s2, tail);
        if e0 is Publish && !s.published && !s.stopped {
            assert(whole == seq![s.seq] + rest);
            assert forall|k: int| 0 <= k < whole.len() implies #[trigger] whole[k] >= s.seq by {
                if k > 0 {
                    assert(whole[k] == rest[k - 1]);
                    assert(rest[k - 1] > s2.seq);
                }
            }
        } else {
            assert(whole == rest);
            if s.stopped {
                lemma_stopped_publishes_nothing(s2, tail);
            } else {
                assert forall|k: int| 0 <= k < whole.len() implies #[trigger] whole[k] >= s.seq
                    && (s.published ==> whole[k] > s.seq) by {
                    assert(whole[k] == rest[k]);
                    assert(rest[k] >= s2.seq);
                    if s2.published {
                        assert(rest[k] > s2.seq);
                    }
                }
            }
        }
    }
}

/// A snapshot is published at most once per tick: while no tick timer
/// fires, a scheduler that has already published sends nothing, and one
/// that has not sends at most one snapshot.
pub proof fn lemma_at_most_one_publish_between_ticks(s: ProtocolState, evs: Seq<ProtocolEvent>)
    requires
        no_tick(evs),
    ensures
        published_seqs(s, evs).len() <= if s.published {
            0int
        } else {
            1int
        },
    decreases evs.len(),
{
    if evs.len() > 0 {
        assert(!(evs[0] is Tick));
        assert(forall|k: int|
            0 <= k < evs.drop_first().len() ==> evs.drop_first()[k] == evs[k + 1]);
        lemma_at_most_one_publish_between_ticks(protocol_step(s, evs[0]), evs.drop_first());
    }
}

/// Across any run of the scheduler, the tick counts observed by the
/// consumer are strictly increasing: snapshots are never duplicated and
/// never go backwards in simulated time.
pub proof fn lemma_published_seqs_strictly_increasing(s: ProtocolState, evs: Seq<ProtocolEvent>)
    ensures
        forall|i: int, j: int|
            0 <= i < j < published_seqs(s, evs).len() ==> #[trigger] published_seqs(s, evs)[i]
                < #[trigger] published_seqs(s, evs)[j],
    decreases evs.len(),
{
    if evs.len() > 0 {
        let s2 = protocol_step(s, evs[0]);
        let rest = published_seqs(s2, evs.drop_first());
        lemma_published_seqs_strictly_increasing(s2, evs.drop_first());
        lemma_published_seqs_lower_bound(s2, evs.drop_first());
        if evs[0] is Publish && !s.published && !s.stopped {
            assert(published_seqs(s, evs) == seq![s.seq] + rest);
            assert(s2.published && s2.seq == s.seq);
            assert forall|i: int, j: int|
                0 <= i < j < published_seqs(s, evs).len() implies #[trigger] published_seqs(
                s,
                evs,
            )[i] < #[trigger] published_seqs(s, evs)[j] by {
                if i == 0 {
                    assert(published_seqs(s, evs)[j] == rest[j - 1]);
                    assert(rest[j - 1] > s2.seq);
                } else {
                    assert(published_seqs(s, evs)[i] == rest[i - 1]);
                    assert(published_seqs(s, evs)[j] == rest[j - 1]);
                }
            }
        }
    }
}

/// How long the driving loop still has to wait before tick `seq` is due,
/// measured against the scene's start instant; `None` when it is overdue
/// and the next tick must run immediately.
pub fn next_tick_delay(seq: u32, elapsed_nanos: u64) -> (r: Option<u64>)
    ensures
        match r {
            Some(d) => elapsed_nanos + d == seq * PHYSICAL_DT_NANOS && d > 0,
            None => elapsed_nanos >= seq * PHYSICAL_DT_NANOS,
        },
{
    proof {
        assert(seq * PHYSICAL_DT_NANOS <= 0xFFFFFFFFu64 * 11111111u64) by (nonlinear_arith)
            requires
                seq <= 0xFFFFFFFFu64,
        ;
    }
    let due = (seq as u64) * PHYSICAL_DT_NANOS;
    if elapsed_nanos < due {
        Some(due - elapsed_nanos)
    } else {
        None
    }
}

} // verus!
