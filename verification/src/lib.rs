//! A verified scene-lifecycle framework.  A registry (`studio::Studio`) of
//! deferred scene constructors shares one graphics context (`gfx`), selects
//! scenes by index with wraparound, holds at most one materialized scene,
//! and forwards frame timing (`time_world`) into the scene contracts
//! (`painter`).  The mesh data the demo scenes draw (`model`, `utils`) is
//! held as plain integer values; the host widens it for the GPU.

pub mod gfx;
pub mod model;
pub mod painter;
pub mod studio;
pub mod time_world;
pub mod utils;
