use vstd::prelude::*;
use crate::error::{SidecarError, SpawnError};

verus! {

/// The TCP port the engine is configured to listen on.
pub const ENGINE_PORT: u16 = 22140;

/// The name under which the engine executable is bundled.
pub const ENGINE_SIDECAR: &'static str = "aimatrx-engine";

/// What `status` reports; derived from the supervisor's state on each call.
#[derive(Clone, Copy, PartialEq, Eq, Structural, Debug)]
pub struct SidecarStatus {
    pub running: bool,
    pub port: u16,
}

/// What `start` must do, given the state it found under the lock.
#[derive(Clone, Copy, PartialEq, Eq, Structural, Debug)]
pub enum StartAction {
    /// A process is already owned: succeed without spawning.
    AlreadyRunning,
    /// No process is owned: spawn one and record the outcome.
    Spawn,
}

pub open spec fn start_action_for(running: bool) -> StartAction {
    if running {
        StartAction::AlreadyRunning
    } else {
        StartAction::Spawn
    }
}

/// The handle stored after a launch attempt from the empty state.
pub open spec fn child_after_launch<H>(launched: Result<H, SpawnError>) -> Option<H> {
    match launched {
        Ok(h) => Some(h),
        Err(_) => None,
    }
}

/// The handle owned after one `start` serialized by the lock, where
/// `launched` is what a spawn gives if `start_action` asks for one.
pub open spec fn child_after_start<H>(child: Option<H>, launched: Result<H, SpawnError>) -> Option<H> {
    if child is Some {
        child
    } else {
        child_after_launch(launched)
    }
}

/// How many processes a run of `start` commands brings to life, one after
/// another under the lock, from the state owning `child`; `outcomes[i]` is
/// what a spawn gives if the i-th command asks for one.
pub open spec fn spawned_by_starts<H>(child: Option<H>, outcomes: Seq<Result<H, SpawnError>>) -> nat
    decreases outcomes.len(),
{
    if outcomes.len() == 0 {
        0
    } else {
        let here: nat = if child is None && outcomes[0] is Ok {
            1
        } else {
            0
        };
        here + spawned_by_starts(child_after_start(child, outcomes[0]), outcomes.drop_first())
    }
}

/// The sole owner of the engine process handle `H`.
///
/// The host keeps one instance for the application's lifetime behind a lock;
/// every start, stop and status goes through it, so that at most one handle
/// exists and every kill is issued on a handle taken from here.
pub struct SidecarState<H> {
    child: Option<H>,
}

impl<H> SidecarState<H> {
    /// The handle currently owned, if any.
    pub closed spec fn child(&self) -> Option<H> {
        self.child
    }

    pub open spec fn running(&self) -> bool {
        self.child() is Some
    }

    /// A supervisor that owns no process.
    pub fn new() -> (r: Self)
        ensures
            r.child() is None,
    {
        SidecarState { child: None }
    }

    pub fn is_running(&self) -> (r: bool)
        ensures
            r == self.running(),
    {
        self.child.is_some()
    }

    /// Reports whether a process is owned, and the configured port.
    /// Nothing is probed: a process that exited on its own still counts
    /// until `stop` takes its handle.
    pub fn status(&self) -> (r: SidecarStatus)
        ensures
            r == (SidecarStatus { running: self.running(), port: ENGINE_PORT }),
    {
        SidecarStatus { running: self.child.is_some(), port: ENGINE_PORT }
    }

    /// First half of `start`: decides whether a process must be spawned.
    /// A second start never spawns a second process.
    pub fn start_action(&self) -> (r: StartAction)
        ensures
            r == start_action_for(self.running()),
    {
        if self.child.is_some() {
            StartAction::AlreadyRunning
        } else {
            StartAction::Spawn
        }
    }

    /// Second half of `start`: records the outcome of the spawn that
    /// `start_action` asked for. The state changes only on success.
    pub fn record_launch(&mut self, launched: Result<H, SpawnError>) -> (r: Result<(), SidecarError>)
        requires
            old(self).child() is None,
        ensures
            final(self).child() == child_after_launch(launched),
            r is Ok <==> launched is Ok,
            r is Ok ==> final(self).running(),
            r is Err ==> !final(self).running(),
            launched is Err ==> r == Err::<(), SidecarError>(
                SidecarError::SpawnFailure(launched->Err_0),
            ),
    {
        match launched {
            Ok(h) => {
                self.child = Some(h);
                Ok(())
            },
            Err(e) => Err(SidecarError::SpawnFailure(e)),
        }
    }

    /// First half of `stop`: hands over the owned handle, if any, for the
    /// host to kill. From here on the state owns no process, whatever the
    /// kill does.
    pub fn take_child(&mut self) -> (r: Option<H>)
        ensures
            r == old(self).child(),
            final(self).child() is None,
            !final(self).running(),
    {
        self.child.take()
    }
}

/// What `stop` returns, given what killing the taken handle gave
/// (`None` where there was no handle to kill).
pub open spec fn stop_result_for(killed: Option<Result<(), String>>) -> Result<(), SidecarError> {
    match killed {
        Some(Err(e)) => Err(SidecarError::KillFailure(e)),
        _ => Ok(()),
    }
}

/// Second half of `stop`: turns the kill's outcome into the command's result.
pub fn stop_outcome(killed: Option<Result<(), String>>) -> (r: Result<(), SidecarError>)
    ensures
        r == stop_result_for(killed),
{
    match killed {
        Some(Err(e)) => Err(SidecarError::KillFailure(e)),
        _ => Ok(()),
    }
}

/// A `start` issued after a successful `start` finds the process owned,
/// spawns nothing, and leaves the same handle in place, whatever a spawn
/// would have given.
pub proof fn lemma_start_twice_spawns_once<H>(h: H, second: Result<H, SpawnError>)
    ensures
        child_after_start(None, Ok::<H, SpawnError>(h)) == Some(h),
        start_action_for(child_after_start(None, Ok::<H, SpawnError>(h)) is Some)
            == StartAction::AlreadyRunning,
        child_after_start(child_after_start(None, Ok::<H, SpawnError>(h)), second) == Some(h),
        spawned_by_starts(None, seq![Ok::<H, SpawnError>(h), second]) == 1,
{
    let outcomes = seq![Ok::<H, SpawnError>(h), second];
    assert(outcomes.drop_first().drop_first().len() == 0);
    assert(outcomes.drop_first()[0] == second);
    assert(spawned_by_starts(Some(h), outcomes.drop_first().drop_first()) == 0);
    assert(spawned_by_starts(Some(h), outcomes.drop_first()) == 0);
}

/// A `stop` that finds no process succeeds and kills nothing.
pub proof fn lemma_stop_when_idle()
    ensures
        stop_result_for(None) == Ok::<(), SidecarError>(()),
{
}

/// Any number of `start` commands, serialized by the lock, bring at most
/// one process to life; none where a process is already owned.
pub proof fn lemma_starts_spawn_at_most_once<H>(child: Option<H>, outcomes: Seq<Result<H, SpawnError>>)
    ensures
        spawned_by_starts(child, outcomes) <= 1,
        child is Some ==> spawned_by_starts(child, outcomes) == 0,
    decreases outcomes.len(),
{
    if outcomes.len() > 0 {
        let next = child_after_start(child, outcomes[0]);
        lemma_starts_spawn_at_most_once(next, outcomes.drop_first());
    }
}

} // verus!
