use vstd::prelude::*;
use crate::world::{dist2, Agent, Kind, Point};

verus! {

/// An entry of the snapshot that hunters search: where a target stood when the tick began.
#[derive(Clone, Copy, Debug, PartialEq, Eq, Structural)]
pub struct Target {
    pub id: u64,
    pub pos: Point,
    pub grazer: bool,
}

pub open spec fn target_of(a: Agent) -> Target {
    Target { id: a.id, pos: a.pos, grazer: a.kind is Grazer }
}

/// The targets among `s` of one sort, in order: mature hunters, or grazers.
pub open spec fn picks(s: Seq<Agent>, grazers: bool) -> Seq<Target>
    decreases s.len(),
{
    if s.len() == 0 {
        seq![]
    } else {
        let rest = picks(s.drop_last(), grazers);
        let a = s.last();
        let chosen = if grazers { a.kind is Grazer } else { a.kind.is_mature_hunter() };
        if chosen {
            rest.push(target_of(a))
        } else {
            rest
        }
    }
}

/// The snapshot of a tick: every mature hunter, then every grazer, each in the order given.
/// Immature hunters are not in it.
pub open spec fn snapshot_of(s: Seq<Agent>) -> Seq<Target> {
    picks(s, false) + picks(s, true)
}

pub open spec fn all_wf(s: Seq<Agent>) -> bool {
    forall|i: int| 0 <= i < s.len() ==> #[trigger] s[i].wf()
}

pub open spec fn targets_wf(t: Seq<Target>) -> bool {
    forall|i: int| 0 <= i < t.len() ==> #[trigger] t[i].pos.wf()
}

proof fn lemma_picks_wf(s: Seq<Agent>, grazers: bool)
    requires
        all_wf(s),
    ensures
        targets_wf(picks(s, grazers)),
    decreases s.len(),
{
    if s.len() > 0 {
        assert(all_wf(s.drop_last()));
        lemma_picks_wf(s.drop_last(), grazers);
        assert(s[s.len() - 1].wf());
        let rest = picks(s.drop_last(), grazers);
        assert(targets_wf(rest.push(target_of(s.last())))) by {
            assert forall|i: int| 0 <= i < rest.len() + 1 implies
                #[trigger] rest.push(target_of(s.last()))[i].pos.wf() by {
                if i < rest.len() {
                    assert(rest[i].pos.wf());
                }
            }
        }
    }
}

pub proof fn lemma_snapshot_wf(s: Seq<Agent>)
    requires
        all_wf(s),
    ensures
        targets_wf(snapshot_of(s)),
{
    lemma_picks_wf(s, false);
    lemma_picks_wf(s, true);
    let t = snapshot_of(s);
    assert forall|i: int| 0 <= i < t.len() implies #[trigger] t[i].pos.wf() by {
        if i < picks(s, false).len() {
            assert(t[i] == picks(s, false)[i]);
        } else {
            assert(t[i] == picks(s, true)[i - picks(s, false).len()]);
        }
    }
}

fn push_picks(agents: &Vec<Agent>, grazers: bool, out: &mut Vec<Target>)
    ensures
        final(out)@ == old(out)@ + picks(agents@, grazers),
{
    let mut i: usize = 0;
    while i < agents.len()
        invariant
            i <= agents@.len(),
            out@ == old(out)@ + picks(agents@.take(i as int), grazers),
        decreases agents@.len() - i,
    {
        let a = agents[i];
        assert(agents@.take(i + 1).drop_last() == agents@.take(i as int));
        let chosen = match a.kind {
            Kind::Hunter { age, .. } => !grazers && age >= crate::world::MATURITY_AGE,
            Kind::Grazer { .. } => grazers,
        };
        if chosen {
            out.push(Target { id: a.id, pos: a.pos, grazer: grazers });
        }
        i += 1;
    }
    assert(agents@.take(agents@.len() as int) == agents@);
}

/// Captures the positions of every mature hunter and every grazer before anything moves.
pub fn snapshot(agents: &Vec<Agent>) -> (r: Vec<Target>)
    ensures
        r@ == snapshot_of(agents@),
{
    let mut r: Vec<Target> = Vec::new();
    push_picks(agents, false, &mut r);
    push_picks(agents, true, &mut r);
    r
}

/// `k` is the first among the targets other than `me` whose distance to `at` is least.
pub open spec fn is_nearest(t: Seq<Target>, me: u64, at: Point, k: int) -> bool {
    &&& 0 <= k < t.len()
    &&& t[k].id != me
    &&& forall|j: int|
        0 <= j < t.len() && t[j].id != me ==> dist2(t[k].pos, at) <= #[trigger] dist2(t[j].pos, at)
    &&& forall|j: int|
        0 <= j < k && t[j].id != me ==> dist2(t[k].pos, at) < #[trigger] dist2(t[j].pos, at)
}

/// The nearest target other than `me`, ties going to the earliest; `None` if there is none.
pub open spec fn nearest_of(t: Seq<Target>, me: u64, at: Point) -> Option<int> {
    if exists|k: int| is_nearest(t, me, at, k) {
        Some(choose|k: int| is_nearest(t, me, at, k))
    } else {
        None
    }
}

proof fn lemma_nearest_unique(t: Seq<Target>, me: u64, at: Point, a: int, b: int)
    requires
        is_nearest(t, me, at, a),
        is_nearest(t, me, at, b),
    ensures
        a == b,
{
    if a < b {
        assert(dist2(t[b].pos, at) < dist2(t[a].pos, at));
    } else if b < a {
        assert(dist2(t[a].pos, at) < dist2(t[b].pos, at));
    }
}

fn distance2(p: Point, q: Point) -> (r: i64)
    requires
        p.wf(),
        q.wf(),
    ensures
        r == dist2(p, q),
{
    let dx = p.x - q.x;
    let dy = p.y - q.y;
    assert(0 <= dx * dx <= 1_000_000_000_000) by (nonlinear_arith)
        requires -1_000_000 <= dx <= 1_000_000;
    assert(0 <= dy * dy <= 1_000_000_000_000) by (nonlinear_arith)
        requires -1_000_000 <= dy <= 1_000_000;
    dx * dx + dy * dy
}

/// Index of the nearest target other than `me`, the first of equals winning.
pub fn nearest(t: &Vec<Target>, me: u64, at: Point) -> (r: Option<usize>)
    requires
        targets_wf(t@),
        at.wf(),
    ensures
        r == match nearest_of(t@, me, at) {
            Some(k) => Some(k as usize),
            None => None::<usize>,
        },
        r is None <==> forall|j: int| 0 <= j < t@.len() ==> t@[j].id == me,
        r matches Some(k) ==> is_nearest(t@, me, at, k as int),
{
    let mut best: Option<usize> = None;
    let mut best_d: i64 = 0;
    let mut i: usize = 0;
    while i < t.len()
        invariant
            i <= t@.len(),
            targets_wf(t@),
            at.wf(),
            best is None <==> forall|j: int| 0 <= j < i ==> t@[j].id == me,
            best matches Some(k) ==> {
                &&& k < i
                &&& t@[k as int].id != me
                &&& best_d == dist2(t@[k as int].pos, at)
                &&& forall|j: int|
                    0 <= j < i && t@[j].id != me ==> best_d <= #[trigger] dist2(t@[j].pos, at)
                &&& forall|j: int|
                    0 <= j < k && t@[j].id != me ==> best_d < #[trigger] dist2(t@[j].pos, at)
            },
        decreases t@.len() - i,
    {
        let c = t[i];
        if c.id != me {
            assert(t@[i as int].pos.wf());
            let d = distance2(c.pos, at);
            match best {
                None => {
                    best = Some(i);
                    best_d = d;
                },
                Some(_) => {
                    if d < best_d {
                        best = Some(i);
                        best_d = d;
                    }
                },
            }
        }
        i += 1;
    }
    proof {
        if let Some(k) = best {
            assert(is_nearest(t@, me, at, k as int));
            let c = choose|k2: int| is_nearest(t@, me, at, k2);
            lemma_nearest_unique(t@, me, at, k as int, c);
        } else {
            assert forall|k: int| !is_nearest(t@, me, at, k) by {}
        }
    }
    best
}

} // verus!
