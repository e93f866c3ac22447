use vstd::multiset::Multiset;
use vstd::prelude::*;

verus! {

/// Why a start request left the slot as it was.
#[derive(Debug, PartialEq, Eq)]
pub enum StartError<H, E> {
    /// A child is already tracked. The handle that was offered is given back
    /// untracked, so that the caller can kill it instead of leaking it.
    AlreadyRunning(H),
    /// The process layer could not create the child.
    Spawn(E),
}

/// What `start` does to a slot, given the outcome of the spawn request:
/// the new slot and the result handed to the caller.
pub open spec fn start_outcome<H, E>(slot: Option<H>, spawned: Result<H, E>) -> (Option<H>, Result<(), StartError<H, E>>) {
    match spawned {
        Err(e) => (slot, Err(StartError::Spawn(e))),
        Ok(h) => if slot is Some {
            (slot, Err(StartError::AlreadyRunning(h)))
        } else {
            (Some(h), Ok(()))
        },
    }
}

/// What `stop` does to a slot: the slot is emptied and whatever it held is
/// handed to the caller to be killed.
pub open spec fn stop_outcome<H>(slot: Option<H>) -> (Option<H>, Option<H>) {
    (None, slot)
}

/// The handles a slot holds.
pub open spec fn held<H>(slot: Option<H>) -> Multiset<H> {
    match slot {
        Some(h) => Multiset::singleton(h),
        None => Multiset::empty(),
    }
}

/// The handle a spawn request produced, if it succeeded.
pub open spec fn offered<H, E>(spawned: Result<H, E>) -> Multiset<H> {
    match spawned {
        Ok(h) => Multiset::singleton(h),
        Err(_) => Multiset::empty(),
    }
}

/// The handle a start request gave back to its caller untracked.
pub open spec fn given_back<H, E>(r: Result<(), StartError<H, E>>) -> Multiset<H> {
    match r {
        Err(StartError::AlreadyRunning(h)) => Multiset::singleton(h),
        _ => Multiset::empty(),
    }
}

/// The handles a stop hands over to be killed.
pub open spec fn to_kill<H>(taken: Option<H>) -> Seq<H> {
    match taken {
        Some(h) => seq![h],
        None => Seq::empty(),
    }
}

/// Stopping `n` times in a row: the final slot and every handle handed over
/// to be killed, in order.
pub open spec fn stop_times<H>(slot: Option<H>, n: nat) -> (Option<H>, Seq<H>)
    decreases n,
{
    if n == 0 {
        (slot, Seq::empty())
    } else {
        let first = stop_outcome(slot);
        let rest = stop_times(first.0, (n - 1) as nat);
        (rest.0, to_kill(first.1) + rest.1)
    }
}

/// Stop is idempotent: however many times it is called in a row, the slot
/// ends empty and only the handle held before the first call is handed over
/// to be killed. On an empty slot every call does nothing.
pub proof fn lemma_stop_idempotent<H>(slot: Option<H>, n: nat)
    requires
        n >= 1,
    ensures
        stop_times(slot, n) == (None::<H>, to_kill(slot)),
    decreases n,
{
    if n == 1 {
        assert(stop_times(None::<H>, 0) == (None::<H>, Seq::<H>::empty()));
        assert(to_kill(slot) + Seq::<H>::empty() =~= to_kill(slot));
    } else {
        lemma_stop_idempotent(None::<H>, (n - 1) as nat);
        assert(to_kill(slot) + to_kill(None::<H>) =~= to_kill(slot));
    }
}

/// After a successful start the slot holds exactly the new handle; the stop
/// that follows empties it and hands that handle over to be killed.
pub proof fn lemma_start_then_stop<H, E>(slot: Option<H>, h: H)
    requires
        start_outcome::<H, E>(slot, Ok(h)).1 is Ok,
    ensures
        start_outcome::<H, E>(slot, Ok(h)).0 == Some(h),
        stop_outcome(start_outcome::<H, E>(slot, Ok(h)).0) == (None::<H>, Some(h)),
{
}

/// Start never loses a handle: the handles tracked after it, with the one it
/// gives back, are those tracked before it with the one the spawn produced.
/// A tracked handle is never replaced.
pub proof fn lemma_start_keeps_every_handle<H, E>(slot: Option<H>, spawned: Result<H, E>)
    ensures
        held(start_outcome(slot, spawned).0).add(given_back(start_outcome(slot, spawned).1))
            == held(slot).add(offered(spawned)),
        slot is Some ==> start_outcome(slot, spawned).0 == slot,
{
    let out = start_outcome(slot, spawned);
    assert(held(out.0).add(given_back(out.1)) =~= held(slot).add(offered(spawned)));
}

/// A successful start followed by any number of stops ends with the slot
/// empty and the started handle handed over to be killed exactly once.
pub proof fn lemma_start_then_stops_kill_once<H, E>(slot: Option<H>, h: H, n: nat)
    requires
        start_outcome::<H, E>(slot, Ok(h)).1 is Ok,
        n >= 1,
    ensures
        stop_times(start_outcome::<H, E>(slot, Ok(h)).0, n) == (None::<H>, seq![h]),
{
    lemma_stop_idempotent(Some(h), n);
}

/// Supervisor of at most one child process, identified by its handle `H`.
pub struct Supervisor<H> {
    slot: Option<H>,
}

impl<H> View for Supervisor<H> {
    type V = Option<H>;

    closed spec fn view(&self) -> Option<H> {
        self.slot
    }
}

impl<H> Supervisor<H> {
    /// An empty supervisor: nothing has been started yet.
    pub fn new() -> (s: Self)
        ensures
            s@ is None,
    {
        Supervisor { slot: None }
    }

    /// Whether a child is currently tracked.
    pub fn is_running(&self) -> (r: bool)
        ensures
            r == self@ is Some,
    {
        self.slot.is_some()
    }

    /// The tracked handle, if any.
    pub fn current(&self) -> (r: Option<&H>)
        ensures
            r is Some <==> self@ is Some,
            r is Some ==> self@ == Some(*r->0),
    {
        match &self.slot {
            Some(h) => Some(h),
            None => None,
        }
    }

    /// Records the outcome of a spawn request. A fresh handle is tracked only
    /// when the slot is empty; an occupied slot keeps its handle and the new
    /// one is given back. A failed spawn changes nothing.
    pub fn start<E>(&mut self, spawned: Result<H, E>) -> (r: Result<(), StartError<H, E>>)
        ensures
            (final(self)@, r) == start_outcome(old(self)@, spawned),
    {
        match spawned {
            Err(e) => Err(StartError::Spawn(e)),
            Ok(h) => {
                if self.slot.is_some() {
                    Err(StartError::AlreadyRunning(h))
                } else {
                    self.slot = Some(h);
                    Ok(())
                }
            },
        }
    }

    /// Takes the tracked handle out, leaving the slot empty. The caller kills
    /// what comes back; `None` means there is nothing to do.
    pub fn stop(&mut self) -> (r: Option<H>)
        ensures
            (final(self)@, r) == stop_outcome(old(self)@),
    {
        self.slot.take()
    }
}

} // verus!
