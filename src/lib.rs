//! A predator and prey simulation on a wrapping square plane, in fixed point.
//!
//! Positions are in thousandths of a unit, headings in nanoradians, energy in
//! millionths, ages and tick lengths in milliseconds. Each tick runs in two
//! verified halves: `decide` takes a snapshot of the targets and settles
//! captures, births of hunters and headings; the host turns headings into
//! displacements; `settle` moves and wraps every agent and lets grazers breed.

mod chance;
mod hunt;
mod laws;
mod plan;
mod settle;
mod target;
mod world;

pub use chance::{draw_headings, draw_turns};
pub use hunt::{hunter_turn, is_captured, wander, Capture, Outcome, Steer};
pub use plan::{decide, Plan};
pub use settle::{settle, stride, Tick};
pub use target::{nearest, snapshot, Target};
pub use world::{
    add_capped, advance, looks_mature, wrap, Agent, Birth, Kind, Point, CAPTURE_RADIUS, FULL_ENERGY, FULL_TURN,
    GRAZER_MEAL, GRAZER_SPEED, GRAZE_RATE, HALF_EXTENT, HUNTER_MEAL, HUNTER_SPEED, MATURITY_AGE,
    MAX_DT, SEARCH_RADIUS, SPAN, TURN_RATE,
};
