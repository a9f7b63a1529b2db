use vstd::prelude::*;
use crate::hunt::{captured, hunter_outcome, hunter_turn, is_captured, wander, wandered, Capture, Steer};
use crate::target::{all_wf, lemma_snapshot_wf, snapshot, snapshot_of, targets_wf, Target};
use crate::world::{clamped, Agent, Birth, Kind, MAX_DT, TURN_RATE};

verus! {

pub open spec fn push_opt<T>(s: Seq<T>, o: Option<T>) -> Seq<T> {
    match o {
        Some(x) => s.push(x),
        None => s,
    }
}

/// The hunting pass over `s` in order, each hunter reading the captures made
/// before it: the agents after their turn, their steering, the captures and
/// the hunters' births. `turns[i]` and `heads[i]` are agent `i`'s draws.
pub open spec fn hunt_run(
    s: Seq<Agent>,
    snap: Seq<Target>,
    dt: int,
    turns: Seq<i64>,
    heads: Seq<i64>,
) -> (Seq<Agent>, Seq<Steer>, Seq<Capture>, Seq<Birth>)
    decreases s.len(),
{
    if s.len() == 0 {
        (seq![], seq![], seq![], seq![])
    } else {
        let i = s.len() - 1;
        let prev = hunt_run(s.drop_last(), snap, dt, turns, heads);
        let o = hunter_outcome(s[i], snap, prev.2, dt, turns[i], heads[i]);
        (prev.0.push(o.agent), prev.1.push(o.steer), push_opt(prev.2, o.capture), push_opt(prev.3, o.birth))
    }
}

/// A grazer's random-walk turn, unless it was eaten this tick; other agents are unchanged.
pub open spec fn grazer_heading(a: Agent, caps: Seq<Capture>, dt: int, turn: i64) -> Agent {
    if a.kind is Grazer && !captured(caps, a.id) {
        Agent { heading: wandered(a.heading, turn, dt), ..a }
    } else {
        a
    }
}

/// The hunting half of a tick. `agents` are the agents after every decision,
/// still where they stood; `steers[i]` says how the host sets agent `i`'s heading
/// before it moves; `captures` lists each eaten agent once, with its hunter;
/// `births` are the hunters' offspring.
pub struct Plan {
    pub agents: Vec<Agent>,
    pub steers: Vec<Steer>,
    pub captures: Vec<Capture>,
    pub births: Vec<Birth>,
}

pub open spec fn births_wf(b: Seq<Birth>) -> bool {
    forall|i: int| 0 <= i < b.len() ==> #[trigger] b[i].wf()
}

pub open spec fn prey_distinct(c: Seq<Capture>) -> bool {
    forall|i: int, j: int| 0 <= i < j < c.len() ==> c[i].prey != c[j].prey
}

pub open spec fn draws_ok(n: nat, turns: Seq<i64>, heads: Seq<i64>) -> bool {
    &&& turns.len() == n
    &&& heads.len() == n
    &&& forall|i: int| 0 <= i < n ==> -TURN_RATE <= #[trigger] turns[i] <= TURN_RATE
}

pub proof fn lemma_outcome_wf(a: Agent, snap: Seq<Target>, caps: Seq<Capture>, dt: int, turn: i64, head: i64)
    requires
        a.wf(),
        dt >= 0,
    ensures
        hunter_outcome(a, snap, caps, dt, turn, head).agent.wf(),
        hunter_outcome(a, snap, caps, dt, turn, head).birth matches Some(b) ==> b.wf(),
        hunter_outcome(a, snap, caps, dt, turn, head).agent.id == a.id,
        hunter_outcome(a, snap, caps, dt, turn, head).agent.kind is Grazer <==> a.kind is Grazer,
        hunter_outcome(a, snap, caps, dt, turn, head).capture matches Some(c) ==> !captured(caps, c.prey),
{
}

/// Every agent and every birth of the hunting pass keeps non-negative energy
/// and a place on the plane, and no agent is eaten twice.
pub proof fn lemma_hunt_run(s: Seq<Agent>, snap: Seq<Target>, dt: int, turns: Seq<i64>, heads: Seq<i64>)
    requires
        all_wf(s),
        dt >= 0,
    ensures
        hunt_run(s, snap, dt, turns, heads).0.len() == s.len(),
        hunt_run(s, snap, dt, turns, heads).1.len() == s.len(),
        all_wf(hunt_run(s, snap, dt, turns, heads).0),
        births_wf(hunt_run(s, snap, dt, turns, heads).3),
        prey_distinct(hunt_run(s, snap, dt, turns, heads).2),
        forall|i: int| 0 <= i < s.len() ==> (#[trigger] hunt_run(s, snap, dt, turns, heads).0[i]).id == s[i].id,
        forall|i: int| 0 <= i < s.len() ==>
            ((#[trigger] hunt_run(s, snap, dt, turns, heads).0[i]).kind is Grazer <==> s[i].kind is Grazer),
    decreases s.len(),
{
    if s.len() > 0 {
        let i = s.len() - 1;
        assert(all_wf(s.drop_last()));
        lemma_hunt_run(s.drop_last(), snap, dt, turns, heads);
        let prev = hunt_run(s.drop_last(), snap, dt, turns, heads);
        assert(s[i].wf());
        lemma_outcome_wf(s[i], snap, prev.2, dt, turns[i], heads[i]);
        let o = hunter_outcome(s[i], snap, prev.2, dt, turns[i], heads[i]);
        let r = hunt_run(s, snap, dt, turns, heads);
        assert forall|j: int| 0 <= j < r.0.len() implies #[trigger] r.0[j].wf() by {
            if j < i {
                assert(r.0[j] == prev.0[j]);
            }
        }
        assert forall|j: int| 0 <= j < r.3.len() implies #[trigger] r.3[j].wf() by {
            if j < prev.3.len() {
                assert(r.3[j] == prev.3[j]);
            }
        }
        if let Some(c) = o.capture {
            assert forall|j: int, k: int| 0 <= j < k < r.2.len() implies r.2[j].prey != r.2[k].prey by {
                if k == prev.2.len() {
                    assert(r.2[j] == prev.2[j]);
                    assert(!captured(prev.2, c.prey));
                }
            }
        }
        assert forall|j: int| 0 <= j < s.len() implies (#[trigger] r.0[j]).id == s[j].id
            && (r.0[j].kind is Grazer <==> s[j].kind is Grazer) by {
            if j < i {
                assert(r.0[j] == prev.0[j]);
                assert(s.drop_last()[j] == s[j]);
            }
        }
    }
}

fn push_some<T>(v: &mut Vec<T>, o: Option<T>)
    ensures
        final(v)@ == push_opt(old(v)@, o),
{
    match o {
        Some(x) => v.push(x),
        None => {},
    }
}

/// The hunting half of a tick, from a snapshot of the targets taken before any
/// change; then every grazer that was not eaten takes its random-walk turn.
/// A negative `dt` counts as zero.
pub fn decide(agents: &Vec<Agent>, dt: i64, turns: &Vec<i64>, heads: &Vec<i64>) -> (r: Plan)
    requires
        all_wf(agents@),
        dt <= MAX_DT,
        draws_ok(agents@.len(), turns@, heads@),
    ensures
        ({
            let run = hunt_run(agents@, snapshot_of(agents@), clamped(dt as int), turns@, heads@);
            &&& r.steers@ == run.1
            &&& r.captures@ == run.2
            &&& r.births@ == run.3
            &&& r.agents@.len() == agents@.len()
            &&& forall|i: int| 0 <= i < agents@.len() ==>
                #[trigger] r.agents@[i] == grazer_heading(run.0[i], run.2, clamped(dt as int), turns@[i])
        }),
        all_wf(r.agents@),
        births_wf(r.births@),
        prey_distinct(r.captures@),
{
    let dt = if dt < 0 { 0 } else { dt };
    let snap = snapshot(agents);
    proof {
        lemma_snapshot_wf(agents@);
    }
    let ghost d = dt as int;
    let mut hunted: Vec<Agent> = Vec::new();
    let mut steers: Vec<Steer> = Vec::new();
    let mut captures: Vec<Capture> = Vec::new();
    let mut births: Vec<Birth> = Vec::new();
    let mut i: usize = 0;
    while i < agents.len()
        invariant
            i <= agents@.len(),
            0 <= dt <= MAX_DT,
            d == dt as int,
            all_wf(agents@),
            targets_wf(snap@),
            snap@ == snapshot_of(agents@),
            draws_ok(agents@.len(), turns@, heads@),
            (hunted@, steers@, captures@, births@) == hunt_run(agents@.take(i as int), snap@, d, turns@, heads@),
        decreases agents@.len() - i,
    {
        assert(agents@.take(i + 1).drop_last() == agents@.take(i as int));
        assert(agents@.take(i + 1)[i as int] == agents@[i as int]);
        assert(agents@[i as int].wf());
        let o = hunter_turn(agents[i], &snap, &captures, dt, turns[i], heads[i]);
        hunted.push(o.agent);
        steers.push(o.steer);
        push_some(&mut captures, o.capture);
        push_some(&mut births, o.birth);
        proof {
            let s = agents@.take(i + 1);
            assert(s.len() == i + 1);
            assert(s.drop_last() == agents@.take(i as int));
            assert(s[s.len() - 1] == agents@[i as int]);
            let prev = hunt_run(agents@.take(i as int), snap@, d, turns@, heads@);
            assert(hunt_run(s, snap@, d, turns@, heads@) == (
                prev.0.push(o.agent),
                prev.1.push(o.steer),
                push_opt(prev.2, o.capture),
                push_opt(prev.3, o.birth),
            ));
        }
        i += 1;
    }
    assert(agents@.take(agents@.len() as int) == agents@);
    proof {
        lemma_hunt_run(agents@, snap@, d, turns@, heads@);
    }
    let mut out: Vec<Agent> = Vec::new();
    let mut j: usize = 0;
    while j < hunted.len()
        invariant
            j <= hunted@.len(),
            hunted@.len() == agents@.len(),
            0 <= dt <= MAX_DT,
            d == dt as int,
            draws_ok(agents@.len(), turns@, heads@),
            all_wf(hunted@),
            out@.len() == j,
            forall|k: int| 0 <= k < j ==> #[trigger] out@[k] == grazer_heading(hunted@[k], captures@, d, turns@[k]),
            all_wf(out@),
        decreases hunted@.len() - j,
    {
        let a = hunted[j];
        assert(hunted@[j as int].wf());
        let mut b = a;
        let g = matches!(a.kind, Kind::Grazer { .. });
        assert(g == a.kind is Grazer);
        if g && !is_captured(&captures, a.id) {
            b = Agent { heading: wander(a.heading, turns[j], dt), ..a };
        }
        out.push(b);
        assert(out@[j as int].wf());
        assert(b == grazer_heading(hunted@[j as int], captures@, d, turns@[j as int]));
        assert forall|k: int| 0 <= k < j + 1 implies #[trigger] out@[k] == grazer_heading(hunted@[k], captures@, d, turns@[k]) by {
        }
        j += 1;
    }
    Plan { agents: out, steers, captures, births }
}

} // verus!
