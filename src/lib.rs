//! A binding-safe model of a graphics driver's object state.
//!
//! The library decides every driver call: which object becomes current, which bytes are
//! uploaded, which requests are refused. It records those calls in a [`base::Context`], and the
//! code that owns the driver context runs them in order and hands back what the driver answered.
use vstd::prelude::*;

pub mod base;
pub mod buffer;
pub mod calls;
pub mod framebuffer;
pub mod program;
pub mod shader;
pub mod texture;
pub mod utils;
pub mod vertex;

verus! {

} // verus!
