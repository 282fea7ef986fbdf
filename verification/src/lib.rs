//! A generic engine for building and driving branching, multi-agent,
//! turn-based simulations.
//!
//! Simulation progress is modelled as a tree of suspended computations: a
//! [`state::Node`] pairs a state snapshot with one of four kinds of branch
//! point, and steps are composed with [`state::Node::and_then`] and
//! [`state::fold`] without ever enumerating the full tree eagerly. The
//! `pokemon`, `single`, `ability` and `effect` modules are a small
//! monster-battle domain built on that engine.

pub mod ability;
pub mod effect;
pub mod pokemon;
pub mod single;
pub mod state;
