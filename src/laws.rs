use vstd::prelude::*;
use crate::hunt::{captured, hunter_outcome, Capture};
use crate::plan::{births_wf, hunt_run, lemma_hunt_run, prey_distinct};
use crate::target::{all_wf, Target};
use crate::world::{capped, Agent, Kind, MATURITY_AGE};

verus! {

/// In one hunting pass no agent is eaten twice: when several hunters close in
/// on the same prey, only the first in order records the capture and gains
/// its energy, and the others miss.
pub proof fn each_prey_eaten_once(s: Seq<Agent>, snap: Seq<Target>, dt: int, turns: Seq<i64>, heads: Seq<i64>)
    requires
        all_wf(s),
        dt >= 0,
    ensures
        prey_distinct(hunt_run(s, snap, dt, turns, heads).2),
{
    lemma_hunt_run(s, snap, dt, turns, heads);
}

/// Energy never goes negative: after the hunting pass every agent and every
/// newborn is well formed, which includes non-negative energy.
pub proof fn energy_stays_non_negative(s: Seq<Agent>, snap: Seq<Target>, dt: int, turns: Seq<i64>, heads: Seq<i64>)
    requires
        all_wf(s),
        dt >= 0,
    ensures
        forall|i: int| 0 <= i < s.len() ==> (#[trigger] hunt_run(s, snap, dt, turns, heads).0[i]).kind.energy() >= 0,
        births_wf(hunt_run(s, snap, dt, turns, heads).3),
{
    lemma_hunt_run(s, snap, dt, turns, heads);
    let r = hunt_run(s, snap, dt, turns, heads);
    assert forall|i: int| 0 <= i < s.len() implies (#[trigger] r.0[i]).kind.energy() >= 0 by {
        assert(r.0[i].wf());
    }
}

/// A hunter still short of maturity after ageing this tick eats nothing and
/// breeds nothing, whatever stands near it.
pub proof fn immature_hunter_never_eats(
    a: Agent,
    snap: Seq<Target>,
    caps: Seq<Capture>,
    dt: int,
    turn: i64,
    head: i64,
)
    requires
        a.kind matches Kind::Hunter { age, .. } && capped(age + dt) < MATURITY_AGE,
    ensures
        hunter_outcome(a, snap, caps, dt, turn, head).capture is None,
        hunter_outcome(a, snap, caps, dt, turn, head).birth is None,
{
}

/// A hunter's energy changes in its turn only when it records a capture of
/// its own; so of two hunters closing on one prey, only the one whose capture
/// stands is credited.
pub proof fn credit_only_with_capture(
    a: Agent,
    snap: Seq<Target>,
    caps: Seq<Capture>,
    dt: int,
    turn: i64,
    head: i64,
)
    ensures
        hunter_outcome(a, snap, caps, dt, turn, head).agent.kind.energy() != a.kind.energy()
            ==> hunter_outcome(a, snap, caps, dt, turn, head).capture == Some(
            Capture { hunter: a.id, prey: hunter_outcome(a, snap, caps, dt, turn, head).capture->Some_0.prey },
        ),
        hunter_outcome(a, snap, caps, dt, turn, head).capture matches Some(c) ==> c.hunter == a.id
            && !captured(caps, c.prey),
{
}

} // verus!
