use hunt_sim::{
    advance, decide, draw_headings, draw_turns, looks_mature, nearest, settle, snapshot, stride, wrap, Agent,
    Birth, Capture, Kind, Plan, Point, Steer, Target, FULL_TURN, HALF_EXTENT, TURN_RATE,
};

fn hunter(id: u64, x: i64, y: i64, energy: i64, age: i64) -> Agent {
    Agent { id, pos: Point { x, y }, heading: 0, kind: Kind::Hunter { energy, age } }
}

fn grazer(id: u64, x: i64, y: i64, energy: i64) -> Agent {
    Agent { id, pos: Point { x, y }, heading: 0, kind: Kind::Grazer { energy } }
}

fn plan_of(agents: &Vec<Agent>, dt: i64, turn: i64, head: i64) -> Plan {
    let n = agents.len();
    decide(agents, dt, &vec![turn; n], &vec![head; n])
}

#[test]
fn wrap_corrects_once() {
    assert_eq!(wrap(500_001), -499_999);
    assert_eq!(wrap(-500_001), 499_999);
    assert_eq!(wrap(1_500_000), 500_000);
    assert_eq!(wrap(-1_500_000), -500_000);
}

#[test]
fn wrap_leaves_inside_values() {
    for c in [-HALF_EXTENT, -1, 0, 123, HALF_EXTENT] {
        assert_eq!(wrap(c), c);
    }
}

#[test]
fn advance_wraps_both_axes() {
    let p = advance(Point { x: 490_000, y: -490_000 }, 20_000, -20_000);
    assert_eq!(p, Point { x: -490_000, y: 490_000 });
}

#[test]
fn mature_hunter_eats_adjacent_grazer() {
    let agents = vec![hunter(1, 0, 0, 0, 5_000), grazer(2, 3_000, 0, 0)];
    let plan = plan_of(&agents, 1_000, 0, 1_234);
    assert_eq!(plan.captures, vec![Capture { hunter: 1, prey: 2 }]);
    assert_eq!(
        plan.births,
        vec![Birth { pos: Point { x: 0, y: 0 }, heading: 1_234, kind: Kind::Hunter { energy: 0, age: 0 } }]
    );
    assert_eq!(plan.agents[0], hunter(1, 0, 0, 0, 6_000));
    assert_eq!(plan.steers[0], Steer::Keep);
    let step = stride(plan.agents[0].kind, 1_000);
    assert_eq!(step, 80_000);
    let moves = vec![Point { x: step, y: 0 }, Point { x: 0, y: 0 }];
    let tick = settle(&plan, 1_000, &moves, &vec![9; 2]);
    assert_eq!(tick.removed, vec![2]);
    assert_eq!(tick.agents[0], hunter(1, 80_000, 0, 0, 6_000));
    assert_eq!(tick.agents[1], grazer(2, 3_000, 0, 0));
    assert_eq!(tick.births.len(), 1);
}

#[test]
fn lone_immature_hunter_only_wanders() {
    let agents = vec![hunter(1, 0, 0, 0, 0)];
    let plan = plan_of(&agents, 1_000, TURN_RATE, 5);
    assert!(plan.captures.is_empty());
    assert!(plan.births.is_empty());
    assert_eq!(plan.steers, vec![Steer::Keep]);
    let a = plan.agents[0];
    assert_eq!(a.heading, 300_000_000);
    assert_eq!(a.kind, Kind::Hunter { energy: 0, age: 1_000 });
    assert_eq!(stride(a.kind, 1_000), 80_000);
}

#[test]
fn almost_mature_hunter_ignores_prey() {
    let agents = vec![hunter(1, 0, 0, 900_000, 2_900), grazer(2, 4_000, 0, 0)];
    let plan = plan_of(&agents, 50, 0, 0);
    assert!(plan.captures.is_empty());
    assert!(plan.births.is_empty());
    assert_eq!(plan.agents[0].kind, Kind::Hunter { energy: 900_000, age: 2_950 });
}

#[test]
fn just_mature_hunter_eats_and_breeds() {
    let agents = vec![hunter(1, 0, 0, 0, 3_100), grazer(2, 4_000, 0, 0)];
    let plan = plan_of(&agents, 50, 0, 7);
    assert_eq!(plan.captures, vec![Capture { hunter: 1, prey: 2 }]);
    assert_eq!(plan.births.len(), 1);
    assert_eq!(plan.agents[0].kind, Kind::Hunter { energy: 0, age: 3_150 });
}

#[test]
fn grazer_breeds_when_energy_fills() {
    let agents = vec![grazer(1, 100, 200, 950_000)];
    let plan = plan_of(&agents, 250, 0, 0);
    let tick = settle(&plan, 250, &vec![Point { x: 15_000, y: 0 }], &vec![42]);
    assert_eq!(tick.births, vec![Birth { pos: Point { x: 15_100, y: 200 }, heading: 42, kind: Kind::Grazer { energy: 0 } }]);
    assert_eq!(tick.agents[0], grazer(1, 15_100, 200, 0));
}

#[test]
fn grazer_gains_energy_below_threshold() {
    let agents = vec![grazer(1, 0, 0, 0)];
    let plan = plan_of(&agents, 1_000, -TURN_RATE, 0);
    assert_eq!(plan.agents[0].heading, -300_000_000);
    let tick = settle(&plan, 1_000, &vec![Point { x: 0, y: -60_000 }], &vec![0]);
    assert_eq!(tick.agents[0], Agent { id: 1, pos: Point { x: 0, y: -60_000 }, heading: -300_000_000, kind: Kind::Grazer { energy: 200_000 } });
    assert!(tick.births.is_empty());
}

#[test]
fn two_hunters_share_one_prey() {
    let agents = vec![hunter(1, 0, 0, 100_000, 5_000), hunter(2, 1_000, 0, 100_000, 5_000), grazer(3, 500, 0, 0)];
    let plan = plan_of(&agents, 10, 0, 0);
    assert_eq!(plan.captures, vec![Capture { hunter: 1, prey: 3 }]);
    assert_eq!(plan.births.len(), 1);
    assert_eq!(plan.agents[0].kind, Kind::Hunter { energy: 0, age: 5_010 });
    assert_eq!(plan.agents[1].kind, Kind::Hunter { energy: 100_000, age: 5_010 });
    let tick = settle(&plan, 10, &vec![Point { x: 0, y: 0 }; 3], &vec![0; 3]);
    assert_eq!(tick.removed, vec![3]);
}

#[test]
fn hunter_eating_hunter_gains_half() {
    let agents = vec![hunter(1, 0, 0, 0, 5_000), hunter(2, 3_000, 0, 0, 5_000)];
    let plan = plan_of(&agents, 10, 0, 0);
    assert_eq!(plan.captures, vec![Capture { hunter: 1, prey: 2 }]);
    assert!(plan.births.is_empty());
    assert_eq!(plan.agents[0].kind, Kind::Hunter { energy: 500_000, age: 5_010 });
    assert_eq!(plan.agents[1], hunter(2, 3_000, 0, 0, 5_000));
}

#[test]
fn hunter_aims_at_visible_target() {
    let agents = vec![hunter(1, 0, 0, 0, 5_000), grazer(2, 100_000, -50_000, 0)];
    let plan = plan_of(&agents, 10, TURN_RATE, 0);
    assert!(plan.captures.is_empty());
    assert_eq!(plan.steers[0], Steer::Aim { dx: 100_000, dy: -50_000 });
    assert_eq!(plan.agents[0].heading, 0);
}

#[test]
fn hunter_wanders_when_prey_is_far() {
    let agents = vec![hunter(1, -450_000, -450_000, 0, 5_000), grazer(2, 450_000, 450_000, 0)];
    let plan = plan_of(&agents, 100, TURN_RATE, 0);
    assert_eq!(plan.steers[0], Steer::Keep);
    assert_eq!(plan.agents[0].heading, 30_000_000);
}

#[test]
fn negative_tick_counts_as_zero() {
    let agents = vec![hunter(1, 0, 0, 0, 1_000), grazer(2, 10, 10, 0)];
    let plan = plan_of(&agents, -500, TURN_RATE, 0);
    assert_eq!(plan.agents[0], hunter(1, 0, 0, 0, 1_000));
    assert_eq!(stride(Kind::Grazer { energy: 0 }, -500), 0);
}

#[test]
fn snapshot_skips_immature_hunters() {
    let agents = vec![grazer(1, 5, 5, 0), hunter(2, 0, 0, 0, 1_000), hunter(3, 7, 7, 0, 3_000)];
    let snap = snapshot(&agents);
    assert_eq!(
        snap,
        vec![
            Target { id: 3, pos: Point { x: 7, y: 7 }, grazer: false },
            Target { id: 1, pos: Point { x: 5, y: 5 }, grazer: true },
        ]
    );
}

#[test]
fn nearest_prefers_first_of_equals() {
    let snap = vec![
        Target { id: 1, pos: Point { x: 0, y: 0 }, grazer: false },
        Target { id: 2, pos: Point { x: 10, y: 0 }, grazer: true },
        Target { id: 3, pos: Point { x: -10, y: 0 }, grazer: true },
    ];
    assert_eq!(nearest(&snap, 1, Point { x: 0, y: 0 }), Some(1));
    assert_eq!(nearest(&snap, 9, Point { x: 0, y: 0 }), Some(0));
    assert_eq!(nearest(&snap[..1].to_vec(), 1, Point { x: 0, y: 0 }), None);
}

#[test]
fn draws_stay_in_range() {
    let turns = draw_turns(200);
    assert_eq!(turns.len(), 200);
    assert!(turns.iter().all(|t| (-TURN_RATE..=TURN_RATE).contains(t)));
    assert!(turns.iter().any(|t| *t != -TURN_RATE));
    let heads = draw_headings(200);
    assert_eq!(heads.len(), 200);
    assert!(heads.iter().all(|h| (0..FULL_TURN).contains(h)));
    assert!(heads.iter().any(|h| *h != 0));
}

#[test]
fn maturity_colour_needs_age_above_threshold() {
    assert!(!looks_mature(Kind::Hunter { energy: 0, age: 3_000 }));
    assert!(looks_mature(Kind::Hunter { energy: 0, age: 3_001 }));
    assert!(!looks_mature(Kind::Grazer { energy: 0 }));
}
