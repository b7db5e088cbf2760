//! Utility-driven agent simulation core.
//!
//! Autonomous agents continuously choose and execute goal-directed behaviors
//! (sleep, farm, sell) while drawing on per-agent resource containers. This
//! crate holds the decision and action-execution engine: per-agent utility
//! scoring and arbitration, the action lifecycle state machine that composes
//! travel-then-act behaviors, a memoizing nearest-target locator, and the
//! resource-container model that task actions mutate.
//!
//! All quantities are integers: need levels and slot contents are plain
//! counts, world coordinates are integer grid units, and elapsed time is a
//! whole number of time units. The rendering / windowing shell around the
//! engine owns the continuous (floating-point) world and converts at the
//! boundary.

pub mod action;
pub mod agent;
pub mod consumable;
pub mod container;
pub mod decision;
pub mod fatigue;
pub mod finder;
pub mod geom;
pub mod items;
pub mod movement;
pub mod scorers;
pub mod thinker;
