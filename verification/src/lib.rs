//! Verified core of a small 2D game engine: the bookkeeping that couples
//! native GPU resources and event-loop callbacks to an embedded script
//! runtime. Everything here is pure: GPU and script work is described as
//! commands that the embedding program performs.

pub mod app;
pub mod collections;
pub mod color;
pub mod errors;
pub mod game;
pub mod gfx;
pub mod graphics;
pub mod input;
pub mod intern;
pub mod io;
pub mod noise;
pub mod script;
pub mod smol;
pub mod text;
pub mod util;
