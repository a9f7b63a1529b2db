use vstd::prelude::*;
use crate::target::{nearest, nearest_of, targets_wf, Target};
use crate::world::{
    add_capped, capped, dist2, Agent, Birth, Kind, CAPTURE_RADIUS, FULL_ENERGY,
    GRAZER_MEAL, HUNTER_MEAL, MATURITY_AGE, MAX_DT, SEARCH_RADIUS, TURN_RATE,
};

verus! {

/// What the host does with a heading after `decide`.
#[derive(Clone, Copy, Debug, PartialEq, Eq, Structural)]
pub enum Steer {
    /// The heading in the agent is final for this tick.
    Keep,
    /// Turn to face the offset `(dx, dy)` to the nearest target.
    Aim { dx: i64, dy: i64 },
}

/// A hunter eating a target this tick.
#[derive(Clone, Copy, Debug, PartialEq, Eq, Structural)]
pub struct Capture {
    pub hunter: u64,
    pub prey: u64,
}

/// What one agent's hunting turn produces.
#[derive(Clone, Copy, Debug, PartialEq, Eq, Structural)]
pub struct Outcome {
    pub agent: Agent,
    pub steer: Steer,
    pub capture: Option<Capture>,
    pub birth: Option<Birth>,
}

pub open spec fn captured(caps: Seq<Capture>, id: u64) -> bool {
    exists|k: int| 0 <= k < caps.len() && caps[k].prey == id
}

/// A heading after a random-walk perturbation of `turn` (µrad/s) over `dt` ms.
pub open spec fn wandered(heading: i64, turn: i64, dt: int) -> i64 {
    capped(heading + turn * dt) as i64
}

pub open spec fn meal(grazer: bool) -> int {
    if grazer {
        GRAZER_MEAL as int
    } else {
        HUNTER_MEAL as int
    }
}

pub open spec fn keep(a: Agent) -> Outcome {
    Outcome { agent: a, steer: Steer::Keep, capture: None, birth: None }
}

pub open spec fn hunter(a: Agent, energy: int, age: int) -> Agent {
    Agent { id: a.id, pos: a.pos, heading: a.heading, kind: Kind::Hunter { energy: energy as i64, age: age as i64 } }
}

/// One hunter's turn, read against the snapshot `snap` and the captures `caps`
/// made earlier in the tick; `dt` is already clamped, `turn` and `head` are the
/// agent's random draws. Grazers and hunters already eaten are left alone.
pub open spec fn hunter_outcome(
    a: Agent,
    snap: Seq<Target>,
    caps: Seq<Capture>,
    dt: int,
    turn: i64,
    head: i64,
) -> Outcome {
    match a.kind {
        Kind::Grazer { .. } => keep(a),
        Kind::Hunter { energy, age } => {
            let age2 = capped(age + dt);
            let still = hunter(a, energy as int, age2);
            let wander = keep(Agent { heading: wandered(a.heading, turn, dt), ..still });
            if captured(caps, a.id) {
                keep(a)
            } else if age2 < MATURITY_AGE {
                wander
            } else {
                match nearest_of(snap, a.id, a.pos) {
                    None => wander,
                    Some(k) => {
                        let t = snap[k];
                        let d = dist2(t.pos, a.pos);
                        if d > SEARCH_RADIUS * SEARCH_RADIUS {
                            wander
                        } else if d < CAPTURE_RADIUS * CAPTURE_RADIUS {
                            if captured(caps, t.id) {
                                keep(still)
                            } else {
                                let fed = capped(energy + meal(t.grazer));
                                let cap = Some(Capture { hunter: a.id, prey: t.id });
                                if fed >= FULL_ENERGY {
                                    Outcome {
                                        agent: hunter(a, 0, age2),
                                        steer: Steer::Keep,
                                        capture: cap,
                                        birth: Some(
                                            Birth {
                                                pos: a.pos,
                                                heading: head,
                                                kind: Kind::Hunter { energy: 0, age: 0 },
                                            },
                                        ),
                                    }
                                } else {
                                    Outcome { agent: hunter(a, fed, age2), steer: Steer::Keep, capture: cap, birth: None }
                                }
                            }
                        } else {
                            Outcome {
                                agent: still,
                                steer: Steer::Aim { dx: (t.pos.x - a.pos.x) as i64, dy: (t.pos.y - a.pos.y) as i64 },
                                capture: None,
                                birth: None,
                            }
                        }
                    },
                }
            }
        },
    }
}

/// Whether `id` was eaten by an earlier capture.
pub fn is_captured(caps: &Vec<Capture>, id: u64) -> (r: bool)
    ensures
        r == captured(caps@, id),
{
    let mut i: usize = 0;
    while i < caps.len()
        invariant
            i <= caps@.len(),
            forall|k: int| 0 <= k < i ==> caps@[k].prey != id,
        decreases caps@.len() - i,
    {
        if caps[i].prey == id {
            return true;
        }
        i += 1;
    }
    false
}

/// The random-walk turn of a heading: `turn` µrad/s over `dt` ms.
pub fn wander(heading: i64, turn: i64, dt: i64) -> (r: i64)
    requires
        -TURN_RATE <= turn <= TURN_RATE,
        0 <= dt <= MAX_DT,
    ensures
        r == wandered(heading, turn, dt as int),
{
    assert(-3_750_000_000 <= turn * dt <= 3_750_000_000) by (nonlinear_arith)
        requires -300_000 <= turn <= 300_000, 0 <= dt <= 12_500;
    add_capped(heading, turn * dt)
}

/// One hunter's turn: ages it, and if it is mature hunts the nearest target of
/// the snapshot, eating it within the capture radius (a target already eaten
/// this tick is a miss), turning toward it within the search radius, and
/// wandering otherwise. Immature hunters only wander.
pub fn hunter_turn(
    a: Agent,
    snap: &Vec<Target>,
    caps: &Vec<Capture>,
    dt: i64,
    turn: i64,
    head: i64,
) -> (r: Outcome)
    requires
        a.wf(),
        targets_wf(snap@),
        0 <= dt <= MAX_DT,
        -TURN_RATE <= turn <= TURN_RATE,
    ensures
        r == hunter_outcome(a, snap@, caps@, dt as int, turn, head),
{
    match a.kind {
        Kind::Grazer { .. } => Outcome { agent: a, steer: Steer::Keep, capture: None, birth: None },
        Kind::Hunter { energy, age } => {
            if is_captured(caps, a.id) {
                return Outcome { agent: a, steer: Steer::Keep, capture: None, birth: None };
            }
            let age2 = add_capped(age, dt);
            let still = Agent { id: a.id, pos: a.pos, heading: a.heading, kind: Kind::Hunter { energy, age: age2 } };
            let wandering = Outcome {
                agent: Agent { heading: wander(a.heading, turn, dt), ..still },
                steer: Steer::Keep,
                capture: None,
                birth: None,
            };
            if age2 < MATURITY_AGE {
                return wandering;
            }
            match nearest(snap, a.id, a.pos) {
                None => wandering,
                Some(k) => {
                    let t = snap[k];
                    assert(t.pos.wf());
                    let dx = t.pos.x - a.pos.x;
                    let dy = t.pos.y - a.pos.y;
                    assert(0 <= dx * dx <= 1_000_000_000_000) by (nonlinear_arith)
                        requires -1_000_000 <= dx <= 1_000_000;
                    assert(0 <= dy * dy <= 1_000_000_000_000) by (nonlinear_arith)
                        requires -1_000_000 <= dy <= 1_000_000;
                    let d = dx * dx + dy * dy;
                    assert(d == dist2(t.pos, a.pos));
                    if d > SEARCH_RADIUS * SEARCH_RADIUS {
                        wandering
                    } else if d < CAPTURE_RADIUS * CAPTURE_RADIUS {
                        if is_captured(caps, t.id) {
                            Outcome { agent: still, steer: Steer::Keep, capture: None, birth: None }
                        } else {
                            let gain = if t.grazer { GRAZER_MEAL } else { HUNTER_MEAL };
                            let fed = add_capped(energy, gain);
                            let cap = Some(Capture { hunter: a.id, prey: t.id });
                            if fed >= FULL_ENERGY {
                                Outcome {
                                    agent: Agent { kind: Kind::Hunter { energy: 0, age: age2 }, ..a },
                                    steer: Steer::Keep,
                                    capture: cap,
                                    birth: Some(Birth { pos: a.pos, heading: head, kind: Kind::Hunter { energy: 0, age: 0 } }),
                                }
                            } else {
                                Outcome {
                                    agent: Agent { kind: Kind::Hunter { energy: fed, age: age2 }, ..a },
                                    steer: Steer::Keep,
                                    capture: cap,
                                    birth: None,
                                }
                            }
                        }
                    } else {
                        Outcome { agent: still, steer: Steer::Aim { dx, dy }, capture: None, birth: None }
                    }
                },
            }
        },
    }
}

} // verus!
