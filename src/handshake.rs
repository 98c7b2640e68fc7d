//! The start handshake: trigger a task, wait for its event, acknowledge it.
//!
//! The wait has no timeout. Rather than spin inside the library, the
//! handshake is a state machine: each `step` names the next register access,
//! and the caller feeds back what the last read returned.
use vstd::prelude::*;
use crate::registers::{Access, Event, RegisterBlock, Task};

verus! {

/// Where a handshake stands.
#[derive(Clone, Copy, Debug, PartialEq, Eq, Structural)]
pub enum Phase {
    /// The task has not been triggered yet.
    Trigger,
    /// The task was triggered; the event has not been read yet.
    Poll,
    /// The event was read; the value that read returned decides what follows.
    Check,
    /// The event was seen set and has been cleared.
    Finished,
}

/// A start request on one task/event pair.
#[derive(Clone, Copy, Debug, PartialEq, Eq, Structural)]
pub struct Handshake {
    pub task: Task,
    pub event: Event,
    pub phase: Phase,
}

/// The access that a handshake in `h` asks for when the last read returned
/// `observed`, and the handshake that follows; `None` once it is finished.
pub open spec fn step_spec(h: Handshake, observed: u32) -> (Handshake, Option<Access>) {
    match h.phase {
        Phase::Trigger => (
            Handshake { phase: Phase::Poll, ..h },
            Some(Access::WriteTask(h.task, 1)),
        ),
        Phase::Poll => (Handshake { phase: Phase::Check, ..h }, Some(Access::ReadEvent(h.event))),
        Phase::Check => if observed == 1 {
            (Handshake { phase: Phase::Finished, ..h }, Some(Access::WriteEvent(h.event, 0)))
        } else {
            (h, Some(Access::ReadEvent(h.event)))
        },
        Phase::Finished => (h, None),
    }
}

/// The handshake after stepping through the values in `obs`, one per step.
pub open spec fn state_after(h: Handshake, obs: Seq<u32>) -> Handshake
    decreases obs.len(),
{
    if obs.len() == 0 {
        h
    } else {
        step_spec(state_after(h, obs.drop_last()), obs.last()).0
    }
}

/// What each step asks for while stepping through the values in `obs`.
pub open spec fn outputs(h: Handshake, obs: Seq<u32>) -> Seq<Option<Access>>
    decreases obs.len(),
{
    if obs.len() == 0 {
        Seq::empty()
    } else {
        outputs(h, obs.drop_last()).push(
            step_spec(state_after(h, obs.drop_last()), obs.last()).1,
        )
    }
}

/// The registers after performing, in order, every access in `outs`.
pub open spec fn apply_all(r: RegisterBlock, outs: Seq<Option<Access>>) -> RegisterBlock
    decreases outs.len(),
{
    if outs.len() == 0 {
        r
    } else {
        let before = apply_all(r, outs.drop_last());
        match outs.last() {
            Some(a) => before.after(a),
            None => before,
        }
    }
}

/// The run has cleared the event at step `j` and asked for nothing since.
pub open spec fn cleared_at(outs: Seq<Option<Access>>, e: Event, j: int) -> bool {
    &&& 0 <= j < outs.len()
    &&& outs[j] == Some(Access::WriteEvent(e, 0))
    &&& forall|k: int| j < k < outs.len() ==> outs[k] is None
}

/// Facts about a run of `obs.len()` steps from a fresh handshake, together
/// with where the handshake stands after it.
proof fn lemma_run_invariant(h: Handshake, obs: Seq<u32>)
    requires
        h.phase == Phase::Trigger,
    ensures
        ({
            let s = state_after(h, obs);
            let outs = outputs(h, obs);
            let e = h.event;
            &&& outs.len() == obs.len()
            &&& s.task == h.task && s.event == e
            &&& (s.phase == Phase::Trigger) == (obs.len() == 0)
            &&& (s.phase == Phase::Poll) == (obs.len() == 1)
            &&& s.phase == Phase::Check ==> obs.len() >= 2 && outs[obs.len() - 1] == Some(
                Access::ReadEvent(e),
            )
            &&& s.phase == Phase::Finished ==> exists|j: int| 2 <= j && cleared_at(outs, e, j)
            &&& obs.len() > 0 ==> outs[0] == Some(Access::WriteTask(h.task, 1))
            &&& forall|i: int|
                0 < i < outs.len() && outs[i] is Some ==> outs[i] == Some(Access::ReadEvent(e))
                    || outs[i] == Some(Access::WriteEvent(e, 0))
            &&& forall|i: int|
                #![trigger outs[i]]
                0 < i < outs.len() && outs[i] == Some(Access::WriteEvent(e, 0)) ==> i >= 2
                    && outs[i - 1] == Some(Access::ReadEvent(e)) && obs[i] == 1
            &&& forall|i: int|
                0 < i < outs.len() && outs[i - 1] == Some(Access::ReadEvent(e)) && obs[i] != 1
                    ==> outs[i] == Some(Access::ReadEvent(e))
            &&& forall|i: int|
                0 <= i < outs.len() && outs[i] is None ==> exists|j: int|
                    2 <= j < i && cleared_at(outs, e, j)
        }),
    decreases obs.len(),
{
    if obs.len() > 0 {
        let pre = obs.drop_last();
        lemma_run_invariant(h, pre);
        let outs = outputs(h, obs);
        let prev = outputs(h, pre);
        let e = h.event;
        assert(outs == prev.push(step_spec(state_after(h, pre), obs.last()).1));
        assert forall|i: int| 0 <= i < prev.len() implies outs[i] == prev[i] && obs[i] == pre[i] by {}
        if state_after(h, pre).phase == Phase::Finished {
            let j = choose|j: int| 2 <= j && cleared_at(prev, e, j);
            assert(cleared_at(outs, e, j));
        }
        if state_after(h, obs).phase == Phase::Finished && state_after(h, pre).phase
            == Phase::Check {
            assert(cleared_at(outs, e, obs.len() - 1));
        }
        assert forall|i: int| 0 <= i < outs.len() && outs[i] is None implies exists|j: int|
            2 <= j < i && cleared_at(outs, e, j) by {
            if i < prev.len() {
                let j = choose|j: int| 2 <= j < i && cleared_at(prev, e, j);
                assert(cleared_at(outs, e, j));
            } else {
                let j = choose|j: int| 2 <= j && cleared_at(prev, e, j);
                assert(cleared_at(outs, e, j));
            }
        }
    }
}

/// Once a run has cleared the event and asked for nothing since, the
/// registers that the run wrote leave the event reading 0.
proof fn lemma_cleared_reads_zero(r: RegisterBlock, outs: Seq<Option<Access>>, e: Event, j: int)
    requires
        cleared_at(outs, e, j),
    ensures
        apply_all(r, outs).event_value(e) == 0,
    decreases outs.len(),
{
    let pre = outs.drop_last();
    if j < outs.len() - 1 {
        assert(cleared_at(pre, e, j)) by {
            assert forall|k: int| j < k < pre.len() implies pre[k] is None by {
                assert(pre[k] == outs[k]);
            }
        }
        lemma_cleared_reads_zero(r, pre, e, j);
    }
}

/// Accesses that never write the source register leave it as it was.
proof fn lemma_source_kept(r: RegisterBlock, outs: Seq<Option<Access>>)
    requires
        forall|i: int| 0 <= i < outs.len() && outs[i] is Some ==> !(outs[i]->0 is WriteLfClkSrc),
    ensures
        apply_all(r, outs).lfclksrc == r.lfclksrc,
    decreases outs.len(),
{
    if outs.len() > 0 {
        let pre = outs.drop_last();
        assert forall|i: int| 0 <= i < pre.len() && pre[i] is Some implies !(
        pre[i]->0 is WriteLfClkSrc) by {
            assert(pre[i] == outs[i]);
        }
        lemma_source_kept(r, pre);
    }
}

/// A start handshake triggers its task exactly once, as its first access,
/// and touches nothing but its own event after that. It keeps reading the
/// event as long as the read does not return 1, clears the event only right
/// after a read that returned 1, and finishes only once it has cleared the
/// event, asking for nothing after the clear. Whatever the registers held
/// before, the writes of a finished run leave the event reading 0, and no
/// run touches the low frequency source selection.
pub proof fn lemma_start_protocol(h: Handshake, obs: Seq<u32>, regs: RegisterBlock)
    requires
        h.phase == Phase::Trigger,
    ensures
        ({
            let outs = outputs(h, obs);
            let e = h.event;
            &&& outs.len() == obs.len()
            &&& obs.len() > 0 ==> outs[0] == Some(Access::WriteTask(h.task, 1))
            &&& forall|i: int| 0 < i < outs.len() && outs[i] is Some ==> !outs[i]->0.is_task_write()
            &&& forall|i: int|
                0 < i < outs.len() && outs[i] is Some ==> outs[i] == Some(Access::ReadEvent(e))
                    || outs[i] == Some(Access::WriteEvent(e, 0))
            &&& forall|i: int|
                0 < i < outs.len() && outs[i - 1] == Some(Access::ReadEvent(e)) && obs[i] != 1
                    ==> outs[i] == Some(Access::ReadEvent(e))
            &&& forall|i: int|
                0 < i < outs.len() && outs[i] == Some(Access::WriteEvent(e, 0)) ==> outs[i - 1]
                    == Some(Access::ReadEvent(e)) && obs[i] == 1
            &&& forall|i: int|
                0 <= i < outs.len() && outs[i] is None ==> exists|j: int|
                    0 < j < i && cleared_at(outs, e, j)
            &&& state_after(h, obs).phase == Phase::Finished ==> apply_all(regs, outs).event_value(
                e,
            ) == 0
            &&& apply_all(regs, outs).lfclksrc == regs.lfclksrc
        }),
{
    lemma_run_invariant(h, obs);
    let outs = outputs(h, obs);
    let e = h.event;
    assert forall|i: int| 0 <= i < outs.len() && outs[i] is None implies exists|j: int|
        0 < j < i && cleared_at(outs, e, j) by {
        let j = choose|j: int| 2 <= j < i && cleared_at(outs, e, j);
        assert(0 < j < i && cleared_at(outs, e, j));
    }
    if state_after(h, obs).phase == Phase::Finished {
        let j = choose|j: int| 2 <= j && cleared_at(outs, e, j);
        lemma_cleared_reads_zero(regs, outs, e, j);
    }
    assert forall|i: int| 0 <= i < outs.len() && outs[i] is Some implies !(
    outs[i]->0 is WriteLfClkSrc) by {
        if i > 0 {
            assert(outs[i] == Some(Access::ReadEvent(e)) || outs[i] == Some(
                Access::WriteEvent(e, 0),
            ));
        }
    }
    lemma_source_kept(regs, outs);
}

impl Handshake {
    /// A handshake that has not yet triggered `task`, and waits for `event`.
    pub fn new(task: Task, event: Event) -> (r: Handshake)
        ensures
            r == (Handshake { task, event, phase: Phase::Trigger }),
    {
        Handshake { task, event, phase: Phase::Trigger }
    }

    /// The handshake has cleared its event and asks for nothing more.
    pub fn is_finished(&self) -> (r: bool)
        ensures
            r == (self.phase == Phase::Finished),
    {
        match self.phase {
            Phase::Finished => true,
            _ => false,
        }
    }

    /// Advances by one step. `observed` is what the last read of the event
    /// returned; it matters only right after such a read. Returns the access
    /// to perform next, or `None` once the event has been seen and cleared.
    pub fn step(&mut self, observed: u32) -> (r: Option<Access>)
        ensures
            (*final(self), r) == step_spec(*old(self), observed),
    {
        match self.phase {
            Phase::Trigger => {
                self.phase = Phase::Poll;
                Some(Access::WriteTask(self.task, 1))
            },
            Phase::Poll => {
                self.phase = Phase::Check;
                Some(Access::ReadEvent(self.event))
            },
            Phase::Check => {
                if observed == 1 {
                    self.phase = Phase::Finished;
                    Some(Access::WriteEvent(self.event, 0))
                } else {
                    Some(Access::ReadEvent(self.event))
                }
            },
            Phase::Finished => None,
        }
    }
}

} // verus!
