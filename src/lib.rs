//! A low-precision raster pipeline: sixteen premultiplied RGBA pixels at a
//! time, in 16-bit fixed point.
//!
//! - `wide`: the sixteen-lane `u16x16` and its wrapping lane arithmetic.
//! - `pixel`: premultiplied RGBA pixels of eight bits per channel.
//! - `lowp`: fixed-point helpers, pixel loads and stores, the pipeline's
//!   registers and the stages that act on them.
//! - `blend`: the Porter-Duff and separable blend modes.
//! - `context`: colours, masks, the target pixmap and the rectangle.
//! - `program`: programs of stages and the driver over a rectangle.
//! - `laws`: what holds of the helpers, the blends and the tail stages.
use vstd::prelude::*;

pub mod blend;
pub mod context;
pub mod laws;
pub mod lowp;
pub mod pixel;
pub mod program;
pub mod wide;

verus! {

} // verus!
