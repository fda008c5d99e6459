//! A verified binary codec for a stateful, versioned game network protocol:
//! primitive wire types, container and tagged-union combinators, irregular
//! message bodies, and the packet registry that maps connection state,
//! direction and numeric id to a message shape.

pub mod codec;
pub mod varnum;
pub mod primitives;
pub mod uuid;
pub mod containers;
pub mod commands;
pub mod lighting;
pub mod bodies;
pub mod registry;
pub mod nbt;
pub mod recipes;
pub mod chunk;
pub mod metadata;
pub mod catalogue;
pub mod packets;
pub mod protocol;
