use vstd::prelude::*;

verus! {

/// Half the side of the plane: coordinates lie in `[-HALF_EXTENT, HALF_EXTENT]`.
pub const HALF_EXTENT: i64 = 500_000;

/// The side of the plane, the step that the wrap adds or subtracts.
pub const SPAN: i64 = 2 * HALF_EXTENT;

/// Age (ms) from which a hunter hunts and can be hunted.
pub const MATURITY_AGE: i64 = 3_000;

/// Farthest distance at which a hunter sees a target.
pub const SEARCH_RADIUS: i64 = 500_000;

/// Distance under which a hunter eats its target.
pub const CAPTURE_RADIUS: i64 = 5_000;

/// Hunter speed, in thousandths of a unit per millisecond (80 units a second).
pub const HUNTER_SPEED: i64 = 80;

/// Grazer speed, in thousandths of a unit per millisecond (60 units a second).
pub const GRAZER_SPEED: i64 = 60;

/// Energy at which an agent breeds.
pub const FULL_ENERGY: i64 = 1_000_000;

/// Energy a hunter gains from eating a grazer.
pub const GRAZER_MEAL: i64 = 1_000_000;

/// Energy a hunter gains from eating another hunter.
pub const HUNTER_MEAL: i64 = 500_000;

/// Energy a grazer gains per millisecond (0.2 a second).
pub const GRAZE_RATE: i64 = 200;

/// Largest wander turn rate, in microradians a second; times a tick in
/// milliseconds it gives nanoradians.
pub const TURN_RATE: i64 = 300_000;

/// A full turn in nanoradians: a newborn's heading lies in `[0, FULL_TURN)`.
pub const FULL_TURN: i64 = 6_283_185_307;

/// Longest tick (ms): a hunter covers at most the side of the plane in it, so
/// one wrap step always brings it back inside (`MAX_DT * HUNTER_SPEED == SPAN`).
pub const MAX_DT: i64 = 12_500;

pub open spec fn in_bounds(c: int) -> bool {
    -HALF_EXTENT <= c <= HALF_EXTENT
}

/// A coordinate after one wrap correction.
pub open spec fn wrapped(c: int) -> int {
    if c > HALF_EXTENT {
        c - SPAN
    } else if c < -HALF_EXTENT {
        c + SPAN
    } else {
        c
    }
}

/// `x` pushed into the range of `i64`.
pub open spec fn capped(x: int) -> int {
    if x > i64::MAX {
        i64::MAX as int
    } else if x < i64::MIN {
        i64::MIN as int
    } else {
        x
    }
}

/// A tick length with negative values read as zero.
pub open spec fn clamped(dt: int) -> int {
    if dt < 0 {
        0
    } else {
        dt
    }
}

#[derive(Clone, Copy, Debug, PartialEq, Eq, Structural)]
pub struct Point {
    pub x: i64,
    pub y: i64,
}

impl Point {
    pub open spec fn wf(self) -> bool {
        in_bounds(self.x as int) && in_bounds(self.y as int)
    }
}

/// Square of the distance between two points.
pub open spec fn dist2(p: Point, q: Point) -> int {
    (p.x - q.x) * (p.x - q.x) + (p.y - q.y) * (p.y - q.y)
}

#[derive(Clone, Copy, Debug, PartialEq, Eq, Structural)]
pub enum Kind {
    Hunter { energy: i64, age: i64 },
    Grazer { energy: i64 },
}

impl Kind {
    pub open spec fn energy(self) -> int {
        match self {
            Kind::Hunter { energy, .. } => energy as int,
            Kind::Grazer { energy } => energy as int,
        }
    }

    pub open spec fn wf(self) -> bool {
        match self {
            Kind::Hunter { energy, age } => energy >= 0 && age >= 0,
            Kind::Grazer { energy } => energy >= 0,
        }
    }

    /// A hunter old enough to hunt and to be hunted.
    pub open spec fn is_mature_hunter(self) -> bool {
        match self {
            Kind::Hunter { age, .. } => age >= MATURITY_AGE,
            Kind::Grazer { .. } => false,
        }
    }
}

#[derive(Clone, Copy, Debug, PartialEq, Eq, Structural)]
pub struct Agent {
    pub id: u64,
    pub pos: Point,
    pub heading: i64,
    pub kind: Kind,
}

impl Agent {
    pub open spec fn wf(self) -> bool {
        self.pos.wf() && self.kind.wf()
    }
}

/// A new agent for the host to create.
#[derive(Clone, Copy, Debug, PartialEq, Eq, Structural)]
pub struct Birth {
    pub pos: Point,
    pub heading: i64,
    pub kind: Kind,
}

impl Birth {
    pub open spec fn wf(self) -> bool {
        self.pos.wf() && self.kind.wf()
    }
}

/// One wrap correction of a coordinate: a single step of `SPAN`, no modulo.
pub fn wrap(c: i64) -> (r: i64)
    requires
        -HALF_EXTENT - SPAN <= c <= HALF_EXTENT + SPAN,
    ensures
        r == wrapped(c as int),
        in_bounds(r as int),
{
    if c > HALF_EXTENT {
        c - SPAN
    } else if c < -HALF_EXTENT {
        c + SPAN
    } else {
        c
    }
}

/// A coordinate wrapped once lies on the plane, and one already on it is left as it is.
pub proof fn wrap_lands_inside(c: int)
    requires
        -HALF_EXTENT - SPAN <= c <= HALF_EXTENT + SPAN,
    ensures
        in_bounds(wrapped(c)),
        in_bounds(c) ==> wrapped(c) == c,
{
}

/// `a + b`, held at the bounds of `i64`.
pub fn add_capped(a: i64, b: i64) -> (r: i64)
    ensures
        r == capped(a + b),
{
    if b >= 0 {
        if a > i64::MAX - b {
            i64::MAX
        } else {
            a + b
        }
    } else {
        if a < i64::MIN - b {
            i64::MIN
        } else {
            a + b
        }
    }
}

/// Moves a point by a displacement and wraps it back onto the plane.
pub fn advance(p: Point, dx: i64, dy: i64) -> (r: Point)
    requires
        p.wf(),
        -SPAN <= dx <= SPAN,
        -SPAN <= dy <= SPAN,
    ensures
        r.x == wrapped(p.x + dx),
        r.y == wrapped(p.y + dy),
        r.wf(),
{
    Point { x: wrap(p.x + dx), y: wrap(p.y + dy) }
}


/// Whether a hunter is drawn in its grown-up colour: older than the maturity age.
/// Grazers never are.
pub fn looks_mature(kind: Kind) -> (r: bool)
    ensures
        r == (kind matches Kind::Hunter { age, .. } && age > MATURITY_AGE),
{
    match kind {
        Kind::Hunter { age, .. } => age > MATURITY_AGE,
        Kind::Grazer { .. } => false,
    }
}

} // verus!
