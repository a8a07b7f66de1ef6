//! A state machine for the bidding phase of duplicate bridge, with the
//! scoring of the contract that the bidding ends in.
//!
//! The functions of this library are verified: they do not panic, their
//! arithmetic does not overflow, and they return what their contracts state.
//! The cards are kept by the crate `bridge_deck`; what this library takes
//! for granted of it is stated in the module `deck`.

pub mod auction;
pub mod board;
pub mod cardplay;
pub mod contract;
pub mod deck;
pub mod direction;

pub use auction::Auction;
pub use board::{Board, BoardPlay};
pub use direction::{turns, BridgeDirection, Turns, Vulnerability};
