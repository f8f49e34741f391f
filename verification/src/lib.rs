//! The `eth_` API of an Optimism execution node, and the rule that bounds the
//! gas limit of the blocks it builds.
//!
//! - [`config`]: the settings of the payload builder and the gas limit of the
//!   next block.
//! - [`router`]: whether a block predates Bedrock, so that its state is asked
//!   of a historical endpoint.
//! - [`node`], [`capabilities`]: what a node supplies to the API, and what the
//!   API offers on top of it.
//! - [`backend`], [`eth`], [`builder`]: the API itself, the state its clones
//!   share, and how it is assembled.

pub mod backend;
pub mod block;
pub mod builder;
pub mod capabilities;
pub mod config;
pub mod error;
pub mod eth;
pub mod historical;
pub mod node;
pub mod primitives;
pub mod router;
pub mod sequencer;
pub mod signers;
