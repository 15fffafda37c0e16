//! The lock's status flag as a state machine.
use vstd::prelude::*;

verus! {

/// Flag value of a lock that nobody holds.
pub const FREE: u8 = 0;

/// Flag value of a lock that a guard holds.
pub const HELD: u8 = 1;

/// The two states of a lock.
#[derive(PartialEq, Eq, Structural, Clone, Copy, Debug)]
pub enum LockStatus {
    Free,
    Held,
}

/// The state after an acquire attempt from `s`, and whether the attempt won.
pub open spec fn acquire_spec(s: LockStatus) -> (LockStatus, bool) {
    match s {
        LockStatus::Free => (LockStatus::Held, true),
        LockStatus::Held => (LockStatus::Held, false),
    }
}

/// The state after the holder releases: always free.
pub open spec fn release_spec(s: LockStatus) -> LockStatus {
    LockStatus::Free
}

impl LockStatus {
    /// One acquire attempt: the next state and whether it won.
    pub fn try_acquire(self) -> (r: (LockStatus, bool))
        ensures
            r == acquire_spec(self),
    {
        match self {
            LockStatus::Free => (LockStatus::Held, true),
            LockStatus::Held => (LockStatus::Held, false),
        }
    }
}

/// The state that an exchange of the flag from `FREE` to `HELD` found: `Ok`
/// means the flag was free, `Err` that it was not.
pub open spec fn found_spec(exchanged: Result<u8, u8>) -> LockStatus {
    match exchanged {
        Ok(_) => LockStatus::Free,
        Err(_) => LockStatus::Held,
    }
}

/// The state that an exchange of the flag from `FREE` to `HELD` found.
pub fn found(exchanged: Result<u8, u8>) -> (r: LockStatus)
    ensures
        r == found_spec(exchanged),
{
    match exchanged {
        Ok(_) => LockStatus::Free,
        Err(_) => LockStatus::Held,
    }
}

/// What callers do to a lock.
#[derive(PartialEq, Eq, Structural, Clone, Copy, Debug)]
pub enum Event {
    /// An acquire attempt, which may win or lose.
    Acquire,
    /// A release by a caller that holds the lock.
    Release,
}

/// A lock's history: its state, how many guards are alive, how many attempts
/// won and how many releases happened.
pub struct History {
    pub status: LockStatus,
    pub holders: nat,
    pub wins: nat,
    pub releases: nat,
}

/// A fresh lock: free, with nothing done yet.
pub open spec fn fresh() -> History {
    History { status: LockStatus::Free, holders: 0, wins: 0, releases: 0 }
}

/// The history after one more event.
pub open spec fn step(h: History, e: Event) -> History {
    match e {
        Event::Acquire => {
            let (s, won) = acquire_spec(h.status);
            History {
                status: s,
                holders: if won { h.holders + 1 } else { h.holders },
                wins: if won { h.wins + 1 } else { h.wins },
                releases: h.releases,
            }
        },
        Event::Release => History {
            status: release_spec(h.status),
            holders: (h.holders - 1) as nat,
            wins: h.wins,
            releases: h.releases + 1,
        },
    }
}

/// The history of a fresh lock after the events, in order.
pub open spec fn run(events: Seq<Event>) -> History
    decreases events.len(),
{
    if events.len() == 0 {
        fresh()
    } else {
        step(run(events.drop_last()), events.last())
    }
}

/// Every release in the events is made by a caller that holds the lock: a
/// guard is alive when it comes.
pub open spec fn releases_by_holders(events: Seq<Event>) -> bool {
    forall|i: int|
        0 <= i < events.len() && #[trigger] events[i] == Event::Release
            ==> run(events.take(i)).holders > 0
}

/// Mutual exclusion, in the history model (`run` over `acquire_spec` and
/// `release_spec`): whatever the acquire attempts and holders' releases, the
/// model counts at most one live holder at any point, and its state is `Held`
/// exactly when it counts one. Each release matches one won attempt, so no
/// win is released twice, and the state is `Free` exactly when every win has
/// been released.
pub proof fn lemma_mutual_exclusion(events: Seq<Event>)
    requires
        releases_by_holders(events),
    ensures
        run(events).holders <= 1,
        run(events).status == LockStatus::Held <==> run(events).holders == 1,
        run(events).holders + run(events).releases == run(events).wins,
        run(events).status == LockStatus::Free <==> run(events).wins == run(events).releases,
    decreases events.len(),
{
    if events.len() > 0 {
        let prefix = events.drop_last();
        assert forall|i: int|
            0 <= i < prefix.len() && #[trigger] prefix[i] == Event::Release
                implies run(prefix.take(i)).holders > 0 by {
            assert(prefix.take(i) =~= events.take(i));
            assert(events[i] == Event::Release);
        }
        lemma_mutual_exclusion(prefix);
        if events.last() == Event::Release {
            let i = events.len() - 1;
            assert(events.take(i) =~= prefix);
            assert(events[i] == Event::Release);
        }
    }
}

/// Contention, in the state machine: after a won attempt, another attempt
/// loses and leaves the state `Held`.
pub proof fn lemma_contention(s: LockStatus)
    requires
        acquire_spec(s).1,
    ensures
        acquire_spec(acquire_spec(s).0) == (LockStatus::Held, false),
{
}

/// Liveness after release, in the state machine: after a release, the next
/// attempt wins.
pub proof fn lemma_release_then_acquire(s: LockStatus)
    ensures
        acquire_spec(release_spec(s)) == (LockStatus::Held, true),
{
}

/// A fresh history, in the model, starts `Free`: the first attempt wins,
/// and a second one made before any release loses.
pub proof fn lemma_fresh_acquires_once()
    ensures
        fresh().status == LockStatus::Free,
        acquire_spec(fresh().status).1,
        !acquire_spec(acquire_spec(fresh().status).0).1,
{
}

} // verus!
