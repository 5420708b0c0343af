//! Gameplay runtime glue for a 2D tile-based platformer.
//!
//! The crate decides, every tick, how a fixed-aspect camera is scaled and
//! clamped inside the currently selected level, how player input turns into
//! motion, which newly spawned player entities still need their collision
//! shape, and what the one-time world bootstrap sets up. The host engine
//! (entity storage, asset loading, physics, rendering) performs the reads and
//! writes; this crate holds the decisions, stated and proved over plain
//! integer values.
//!
//! All world coordinates are fixed-point: thousandths of a world unit.

pub mod ldtk;
pub mod phys;
pub mod player;
pub mod space;
