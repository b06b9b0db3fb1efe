use vstd::prelude::*;

use crate::error::BridgeError;

verus! {

/// Whether the bridge runs; derived from the store's slot alone.
#[derive(Debug, Clone, Copy, PartialEq, Eq, Structural)]
pub enum SupervisorState {
    Stopped,
    Running,
}

/// The store of the bridge's process handle and the rules that start and
/// stop it. The slot is the single source of truth: the bridge runs exactly
/// when a handle is held.
///
/// Spawning and terminating are done by the caller, who holds the
/// supervisor under a lock for the whole of a start or a stop:
/// `begin_start` says whether to spawn, `finish_start` records what the
/// spawn gave; `stop` hands out the handle to terminate, and
/// `finish_stop` reports how termination went.
pub struct Supervisor<H> {
    slot: Option<H>,
}

/// The slot after a start, given the slot before it and what the spawn
/// produced. A held handle is kept and the spawn result is then unused,
/// since no spawn is made.
pub open spec fn slot_after_start<H>(slot: Option<H>, spawned: Result<H, String>) -> Option<H> {
    match slot {
        Some(h) => Some(h),
        None => match spawned {
            Ok(h) => Some(h),
            Err(_) => None,
        },
    }
}

/// The slot after a run of starts with no stop in between, the i-th start
/// receiving `spawns[i]` if it reaches the spawn.
pub open spec fn slot_after_starts<H>(slot: Option<H>, spawns: Seq<Result<H, String>>) -> Option<H>
    decreases spawns.len(),
{
    if spawns.len() == 0 {
        slot
    } else {
        slot_after_starts(slot_after_start(slot, spawns[0]), spawns.drop_first())
    }
}

/// How many starts of such a run reach the spawn: those that find the slot
/// empty.
pub open spec fn spawns_made<H>(slot: Option<H>, spawns: Seq<Result<H, String>>) -> nat
    decreases spawns.len(),
{
    if spawns.len() == 0 {
        0
    } else {
        (if slot is None { 1nat } else { 0nat }) + spawns_made(
            slot_after_start(slot, spawns[0]),
            spawns.drop_first(),
        )
    }
}

/// What each start of such a run reports: `AlreadyRunning` where a handle
/// is held, else the outcome of its spawn.
pub open spec fn start_reports<H>(slot: Option<H>, spawns: Seq<Result<H, String>>) -> Seq<
    Result<(), BridgeError>,
>
    decreases spawns.len(),
{
    if spawns.len() == 0 {
        Seq::empty()
    } else {
        seq![
            if slot is Some {
                Err(BridgeError::AlreadyRunning)
            } else {
                start_report(spawns[0])
            },
        ] + start_reports(slot_after_start(slot, spawns[0]), spawns.drop_first())
    }
}

/// What a run of `n` stops with no start in between hands out for
/// termination, in order.
pub open spec fn handed_by_stops<H>(slot: Option<H>, n: nat) -> Seq<Option<H>>
    decreases n,
{
    if n == 0 {
        Seq::empty()
    } else {
        seq![slot] + handed_by_stops(None, (n - 1) as nat)
    }
}

/// What a start reports when it reached the spawn.
pub open spec fn start_report<H>(spawned: Result<H, String>) -> Result<(), BridgeError> {
    match spawned {
        Ok(_) => Ok(()),
        Err(e) => Err(BridgeError::SpawnFailed(e)),
    }
}

/// What a stop reports from the outcome of terminating the handle it
/// handed out.
pub open spec fn stop_report(terminated: Result<(), String>) -> Result<(), BridgeError> {
    match terminated {
        Ok(()) => Ok(()),
        Err(e) => Err(BridgeError::TerminationFailed(e)),
    }
}

impl<H> Supervisor<H> {
    /// The handle held, if any.
    pub closed spec fn handle(&self) -> Option<H> {
        self.slot
    }

    pub open spec fn running(&self) -> bool {
        self.handle() is Some
    }

    /// An empty store: the bridge is stopped.
    pub fn new() -> (r: Self)
        ensures
            r.handle() is None,
    {
        Supervisor { slot: None }
    }

    pub fn is_running(&self) -> (r: bool)
        ensures
            r == self.running(),
    {
        self.slot.is_some()
    }

    pub fn state(&self) -> (r: SupervisorState)
        ensures
            r == (if self.running() {
                SupervisorState::Running
            } else {
                SupervisorState::Stopped
            }),
    {
        if self.slot.is_some() {
            SupervisorState::Running
        } else {
            SupervisorState::Stopped
        }
    }

    /// The first half of a start: `Ok` when the slot is empty and a spawn is
    /// to be made, `AlreadyRunning` when a handle is held (nothing is to be
    /// spawned then, and the store is left as it is).
    pub fn begin_start(&self) -> (r: Result<(), BridgeError>)
        ensures
            r is Ok <==> !self.running(),
            r is Err ==> r == Err::<(), BridgeError>(BridgeError::AlreadyRunning),
    {
        if self.slot.is_some() {
            Err(BridgeError::AlreadyRunning)
        } else {
            Ok(())
        }
    }

    /// The second half of a start: records what the spawn produced. A
    /// handle is stored; a failure leaves the bridge stopped and is
    /// reported as `SpawnFailed` with its cause.
    pub fn finish_start(&mut self, spawned: Result<H, String>) -> (r: Result<(), BridgeError>)
        requires
            !old(self).running(),
        ensures
            final(self).handle() == slot_after_start(old(self).handle(), spawned),
            r == start_report(spawned),
    {
        match spawned {
            Ok(h) => {
                self.slot = Some(h);
                Ok(())
            },
            Err(e) => Err(BridgeError::SpawnFailed(e)),
        }
    }

    /// A stop: empties the store, whatever termination will give, and hands
    /// out the handle that was held so that the caller terminates it. With
    /// the store empty it hands out nothing: the stop is then complete and
    /// succeeded.
    pub fn stop(&mut self) -> (r: Option<H>)
        ensures
            r == old(self).handle(),
            final(self).handle() is None,
    {
        self.slot.take()
    }

    /// What a stop reports once the handle it handed out was terminated.
    /// The outcome handed in is that of the kill call: success means that
    /// the kill was issued, not that the exit was observed. Either way the
    /// store is already empty.
    pub fn finish_stop(terminated: Result<(), String>) -> (r: Result<(), BridgeError>)
        ensures
            r == stop_report(terminated),
    {
        match terminated {
            Ok(()) => Ok(()),
            Err(e) => Err(BridgeError::TerminationFailed(e)),
        }
    }
}

/// Starts made while a handle is held spawn nothing, each reports
/// `AlreadyRunning`, and the held handle stays the only one.
pub proof fn lemma_starts_while_running<H>(h: H, spawns: Seq<Result<H, String>>)
    ensures
        slot_after_starts(Some(h), spawns) == Some(h),
        spawns_made(Some(h), spawns) == 0,
        start_reports(Some(h), spawns).len() == spawns.len(),
        forall|i: int|
            0 <= i < spawns.len() ==> #[trigger] start_reports(Some(h), spawns)[i] == Err::<
                (),
                BridgeError,
            >(BridgeError::AlreadyRunning),
    decreases spawns.len(),
{
    if spawns.len() > 0 {
        lemma_starts_while_running(h, spawns.drop_first());
        let rest = start_reports(Some(h), spawns.drop_first());
        assert forall|i: int| 0 <= i < spawns.len() implies #[trigger] start_reports(
            Some(h),
            spawns,
        )[i] == Err::<(), BridgeError>(BridgeError::AlreadyRunning) by {
            if i > 0 {
                assert(start_reports(Some(h), spawns)[i] == rest[i - 1]);
            }
        }
    }
}

/// In a run of starts with no stop in between, beginning with the bridge
/// stopped, the first start whose spawn succeeds is the only one that
/// spawns: every later start reports `AlreadyRunning`, and the store holds
/// exactly the handle of that first spawn.
pub proof fn lemma_only_first_start_spawns<H>(spawns: Seq<Result<H, String>>)
    requires
        spawns.len() > 0,
        spawns[0] is Ok,
    ensures
        spawns_made(None, spawns) == 1,
        slot_after_starts(None, spawns) == Some(spawns[0]->Ok_0),
        start_reports(None, spawns).len() == spawns.len(),
        start_reports(None, spawns)[0] == Ok::<(), BridgeError>(()),
        forall|i: int|
            1 <= i < spawns.len() ==> #[trigger] start_reports(None, spawns)[i] == Err::<
                (),
                BridgeError,
            >(BridgeError::AlreadyRunning),
{
    let h = spawns[0]->Ok_0;
    lemma_starts_while_running(h, spawns.drop_first());
    let rest = start_reports(Some(h), spawns.drop_first());
    assert forall|i: int| 1 <= i < spawns.len() implies #[trigger] start_reports(None, spawns)[i]
        == Err::<(), BridgeError>(BridgeError::AlreadyRunning) by {
        assert(start_reports(None, spawns)[i] == rest[i - 1]);
    }
}

/// In a run of `n` stops with no start in between, only the first hands
/// out a handle for termination (the one held, if any); every later stop
/// hands out nothing, so it attempts no termination and cannot fail.
pub proof fn lemma_only_first_stop_terminates<H>(slot: Option<H>, n: nat)
    requires
        n > 0,
    ensures
        handed_by_stops(slot, n).len() == n,
        handed_by_stops(slot, n)[0] == slot,
        forall|i: int| 1 <= i < n ==> #[trigger] handed_by_stops(slot, n)[i] is None,
{
    lemma_stops_when_stopped::<H>((n - 1) as nat);
    let rest = handed_by_stops(None::<H>, (n - 1) as nat);
    assert forall|i: int| 1 <= i < n implies #[trigger] handed_by_stops(slot, n)[i] is None by {
        assert(handed_by_stops(slot, n)[i] == rest[i - 1]);
    }
}

proof fn lemma_stops_when_stopped<H>(n: nat)
    ensures
        handed_by_stops(None::<H>, n).len() == n,
        forall|i: int| 0 <= i < n ==> #[trigger] handed_by_stops(None::<H>, n)[i] is None,
    decreases n,
{
    if n > 0 {
        lemma_stops_when_stopped::<H>((n - 1) as nat);
        let rest = handed_by_stops(None::<H>, (n - 1) as nat);
        assert forall|i: int| 0 <= i < n implies #[trigger] handed_by_stops(None::<H>, n)[i] is None by {
            if i > 0 {
                assert(handed_by_stops(None::<H>, n)[i] == rest[i - 1]);
            }
        }
    }
}

} // verus!
