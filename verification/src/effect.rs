//! Lasting effects: domain content that hooks into the engine's extension
//! points.
//!
//! No concrete effect is defined yet; the inert placeholder uses every
//! hook's default, so it never branches and never changes the state.

use vstd::prelude::*;

use crate::state::{EventHandler, StateBase};

verus! {

/// A lasting effect on the battle. The inert effect does nothing at any
/// extension point.
#[derive(Clone, Copy, PartialEq, Eq, Structural, Debug)]
pub enum Effect {
    Inert,
}

impl<S: StateBase, P> EventHandler<S, P> for Effect {
}

} // verus!
