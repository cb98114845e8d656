//! Per-frame physics and collision core for a 2D side-scrolling platformer.
//!
//! Every world coordinate and velocity is an `i64` in *subunits*: 60 subunits
//! make one world unit, so all the engine's tunable constants (gravity ramp
//! steps, half-unit jump impulses, walk speeds) are exact integers and every
//! frame step is deterministic.

pub mod tuning;
pub mod geom;
pub mod ramp;
pub mod entity;
pub mod tile;
pub mod block;
pub mod enemy;
pub mod player;
pub mod state;
pub mod laws;
