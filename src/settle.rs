use vstd::prelude::*;
use crate::hunt::{captured, is_captured, Capture};
use crate::plan::{births_wf, prey_distinct, push_opt, Plan};
use crate::target::all_wf;
use crate::world::{
    add_capped, advance, capped, clamped, wrapped, Agent, Birth, Kind, Point, FULL_ENERGY,
    GRAZER_SPEED, GRAZE_RATE, HUNTER_SPEED, MAX_DT, SPAN,
};

verus! {

/// The other half of a tick: where every agent ended up, which agents the host
/// removes, and which it creates, in order.
pub struct Tick {
    pub agents: Vec<Agent>,
    pub removed: Vec<u64>,
    pub births: Vec<Birth>,
}

pub open spec fn speed_of(kind: Kind) -> int {
    match kind {
        Kind::Hunter { .. } => HUNTER_SPEED as int,
        Kind::Grazer { .. } => GRAZER_SPEED as int,
    }
}

/// How far an agent of this kind travels in a tick of `dt` ms (negative read as zero).
pub fn stride(kind: Kind, dt: i64) -> (r: i64)
    requires
        dt <= MAX_DT,
    ensures
        r == speed_of(kind) * clamped(dt as int),
        0 <= r <= SPAN,
{
    let dt = if dt < 0 { 0 } else { dt };
    match kind {
        Kind::Hunter { .. } => HUNTER_SPEED * dt,
        Kind::Grazer { .. } => GRAZER_SPEED * dt,
    }
}

pub open spec fn moved_to(p: Point, mv: Point) -> Point {
    Point { x: wrapped(p.x + mv.x) as i64, y: wrapped(p.y + mv.y) as i64 }
}

/// One agent's end of tick: unless it was eaten, it moves by `mv` and wraps;
/// a grazer then gains energy and, once full, breeds at its new place with
/// heading `head` and starts again from zero.
pub open spec fn settled(a: Agent, caps: Seq<Capture>, dt: int, mv: Point, head: i64) -> (Agent, Option<Birth>) {
    if captured(caps, a.id) {
        (a, None)
    } else {
        let p = moved_to(a.pos, mv);
        match a.kind {
            Kind::Hunter { .. } => (Agent { pos: p, ..a }, None),
            Kind::Grazer { energy } => {
                let fed = capped(energy + GRAZE_RATE * dt);
                if fed >= FULL_ENERGY {
                    (
                        Agent { pos: p, kind: Kind::Grazer { energy: 0 }, ..a },
                        Some(Birth { pos: p, heading: head, kind: Kind::Grazer { energy: 0 } }),
                    )
                } else {
                    (Agent { pos: p, kind: Kind::Grazer { energy: fed as i64 }, ..a }, None)
                }
            },
        }
    }
}

/// The grazers' births over `s`, in order.
pub open spec fn grazer_births(s: Seq<Agent>, caps: Seq<Capture>, dt: int, moves: Seq<Point>, heads: Seq<i64>) -> Seq<Birth>
    decreases s.len(),
{
    if s.len() == 0 {
        seq![]
    } else {
        let i = s.len() - 1;
        push_opt(grazer_births(s.drop_last(), caps, dt, moves, heads), settled(s[i], caps, dt, moves[i], heads[i]).1)
    }
}

pub open spec fn moves_ok(n: nat, moves: Seq<Point>) -> bool {
    &&& moves.len() == n
    &&& forall|i: int| 0 <= i < n ==> -SPAN <= #[trigger] moves[i].x <= SPAN && -SPAN <= moves[i].y <= SPAN
}

/// A grazer that is not eaten and whose energy reaches the full mark this tick
/// breeds exactly once and leaves the tick with no energy.
pub proof fn grazer_breeds_when_full(a: Agent, caps: Seq<Capture>, dt: int, mv: Point, head: i64)
    requires
        a.kind is Grazer,
        !captured(caps, a.id),
        a.kind.energy() + GRAZE_RATE * dt >= FULL_ENERGY,
    ensures
        settled(a, caps, dt, mv, head).1 is Some,
        settled(a, caps, dt, mv, head).0.kind == (Kind::Grazer { energy: 0 }),
{
}

proof fn lemma_settled_wf(a: Agent, caps: Seq<Capture>, dt: int, mv: Point, head: i64)
    requires
        a.wf(),
        dt >= 0,
        -SPAN <= mv.x <= SPAN,
        -SPAN <= mv.y <= SPAN,
    ensures
        settled(a, caps, dt, mv, head).0.wf(),
        settled(a, caps, dt, mv, head).1 matches Some(b) ==> b.wf(),
{
}

/// Ends a tick: moves each agent that was not eaten by `moves[i]` (the host's
/// displacement along its heading) and wraps it; grazers gain energy and breed.
/// The removed ids are the captured agents, each once; the births are the
/// hunters' followed by the grazers'.
pub fn settle(plan: &Plan, dt: i64, moves: &Vec<Point>, heads: &Vec<i64>) -> (r: Tick)
    requires
        all_wf(plan.agents@),
        births_wf(plan.births@),
        prey_distinct(plan.captures@),
        dt <= MAX_DT,
        moves_ok(plan.agents@.len(), moves@),
        heads@.len() == plan.agents@.len(),
    ensures
        r.agents@.len() == plan.agents@.len(),
        forall|i: int| 0 <= i < plan.agents@.len() ==> #[trigger] r.agents@[i] == settled(
            plan.agents@[i],
            plan.captures@,
            clamped(dt as int),
            moves@[i],
            heads@[i],
        ).0,
        r.births@ == plan.births@ + grazer_births(plan.agents@, plan.captures@, clamped(dt as int), moves@, heads@),
        r.removed@ == plan.captures@.map_values(|c: Capture| c.prey),
        r.removed@.no_duplicates(),
        all_wf(r.agents@),
        births_wf(r.births@),
{
    let dt = if dt < 0 { 0 } else { dt };
    let ghost d = dt as int;
    let ghost s = plan.agents@;
    let mut agents: Vec<Agent> = Vec::new();
    let mut births: Vec<Birth> = plan.births.clone();
    let mut i: usize = 0;
    while i < plan.agents.len()
        invariant
            i <= s.len(),
            s == plan.agents@,
            0 <= dt <= MAX_DT,
            d == dt as int,
            all_wf(s),
            births_wf(plan.births@),
            moves_ok(s.len(), moves@),
            heads@.len() == s.len(),
            agents@.len() == i,
            forall|k: int| 0 <= k < i ==> #[trigger] agents@[k] == settled(s[k], plan.captures@, d, moves@[k], heads@[k]).0,
            all_wf(agents@),
            births@ == plan.births@ + grazer_births(s.take(i as int), plan.captures@, d, moves@, heads@),
            births_wf(births@),
        decreases s.len() - i,
    {
        let a = plan.agents[i];
        assert(s[i as int].wf());
        let mv = moves[i];
        assert(-SPAN <= moves@[i as int].x <= SPAN && -SPAN <= moves@[i as int].y <= SPAN);
        let mut b: Option<Birth> = None;
        let mut next = a;
        if !is_captured(&plan.captures, a.id) {
            let p = advance(a.pos, mv.x, mv.y);
            match a.kind {
                Kind::Hunter { .. } => {
                    next = Agent { pos: p, ..a };
                },
                Kind::Grazer { energy } => {
                    let fed = add_capped(energy, GRAZE_RATE * dt);
                    if fed >= FULL_ENERGY {
                        next = Agent { pos: p, kind: Kind::Grazer { energy: 0 }, ..a };
                        b = Some(Birth { pos: p, heading: heads[i], kind: Kind::Grazer { energy: 0 } });
                    } else {
                        next = Agent { pos: p, kind: Kind::Grazer { energy: fed }, ..a };
                    }
                },
            }
        }
        proof {
            lemma_settled_wf(a, plan.captures@, d, mv, heads@[i as int]);
            let t = s.take(i + 1);
            assert(t.drop_last() == s.take(i as int));
            assert(t[i as int] == a);
        }
        assert((next, b) == settled(a, plan.captures@, d, mv, heads@[i as int]));
        let ghost old_agents = agents@;
        agents.push(next);
        let ghost old_births = births@;
        push_births(&mut births, b);
        proof {
            assert(births@ == plan.births@ + grazer_births(s.take(i + 1), plan.captures@, d, moves@, heads@));
            assert forall|k: int| 0 <= k < births@.len() implies #[trigger] births@[k].wf() by {
                if k < old_births.len() {
                    assert(births@[k] == old_births[k]);
                }
            }
            assert forall|k: int| 0 <= k < i + 1 implies #[trigger] agents@[k].wf() by {
                if k < i {
                    assert(agents@[k] == old_agents[k]);
                }
            }
        }
        i += 1;
    }
    assert(s.take(s.len() as int) == s);
    let mut removed: Vec<u64> = Vec::new();
    let mut j: usize = 0;
    while j < plan.captures.len()
        invariant
            j <= plan.captures@.len(),
            prey_distinct(plan.captures@),
            removed@ == plan.captures@.take(j as int).map_values(|c: Capture| c.prey),
        decreases plan.captures@.len() - j,
    {
        removed.push(plan.captures[j].prey);
        assert(plan.captures@.take(j + 1) == plan.captures@.take(j as int).push(plan.captures@[j as int]));
        assert(removed@ =~= plan.captures@.take(j + 1).map_values(|c: Capture| c.prey));
        j += 1;
    }
    assert(plan.captures@.take(plan.captures@.len() as int) == plan.captures@);
    Tick { agents, removed, births }
}

fn push_births(v: &mut Vec<Birth>, o: Option<Birth>)
    ensures
        final(v)@ == push_opt(old(v)@, o),
{
    match o {
        Some(x) => v.push(x),
        None => {},
    }
}

} // verus!
