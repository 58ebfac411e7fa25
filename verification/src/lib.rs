//! A minimal real-time rendering bootstrap, modelled as verified logic over
//! plain values: shader build validation, diagnostic extraction, GPU resource
//! planning, and the frame-loop decisions. The graphics driver, the window
//! system and the image decoder are external collaborators; this crate holds
//! the decisions and data they are driven by.

use vstd::prelude::*;

pub mod diag;
pub mod frame;
pub mod geometry;
pub mod resources;
pub mod shader;

verus! {

/// The value a driver status query reports on success.
pub const STATUS_OK: i32 = 1;

/// The two shader stages a program is built from.
#[derive(Clone, Copy, PartialEq, Eq, Structural, Debug)]
pub enum StageKind {
    Vertex,
    Fragment,
}

} // verus!
