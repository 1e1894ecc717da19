//! Connection bootstrapping for a peer-to-peer overlay node.
//!
//! Peers announced by local-network discovery enter a registry and wait in a
//! queue for a dial decision. Each poll takes one waiting peer and decides,
//! by the order of the two identifiers alone, whether this node dials it or
//! leaves the dialling to the other side, so that no pair of nodes ever
//! dials each other at once.
//!
//! [`model`] describes the scheduler as a state machine and [`laws`] proves
//! what holds of it. [`connections_behaviour`] and [`network`] are that
//! machine in executable form, for one owner; [`shared`] puts it behind a
//! lock for several.

pub mod order;
pub mod identifier;
pub mod registry;
pub mod queue;
pub mod model;
pub mod decision;
pub mod connections_behaviour;
pub mod network;
pub mod laws;
pub mod shared;
