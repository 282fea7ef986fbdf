//! Abilities: domain content that hooks into the engine's extension points.
//!
//! No concrete ability is defined yet; the inert placeholder uses every
//! hook's default, so it never branches and never changes the state.

use vstd::prelude::*;

use crate::state::{EventHandler, StateBase};

verus! {

/// An ability a combatant can have. The inert ability does nothing at any
/// extension point.
#[derive(Clone, Copy, PartialEq, Eq, Structural, Debug)]
pub enum Ability {
    Inert,
}

impl<S: StateBase, P> EventHandler<S, P> for Ability {
}

} // verus!
