//! The per-frame input edges and the capability the host implements to
//! supply them.

use vstd::prelude::*;

verus! {

/// The six input edges sampled once per frame.
#[derive(Debug, Copy, Clone, PartialEq, Eq, Structural)]
pub struct InputState {
    pub up: bool,
    pub left: bool,
    pub right: bool,
    pub down: bool,
    pub action: bool,
    pub turbo: bool,
}

/// An input source. The host implements this over its windowing layer or
/// whatever else gathers key state.
pub trait Input {
    fn get_input(&self) -> InputState;
}

} // verus!
