//! Decision logic of an agent that renews the lease of one core during the
//! priority window of a sale cycle.
//!
//! The agent follows the finalized blocks of a chain. When the chain announces
//! that the watched core can be renewed, the agent waits for the announced sale
//! cycle to open, checks that the paying account can afford the price, and
//! asks for exactly one renewal while the priority window lasts.
//!
//! This crate holds the decisions only. Whoever drives it reads the chain,
//! hands each block's facts to a [`watcher::Watcher`], and carries out the
//! verdict that comes back.

pub mod events;
pub mod records;
pub mod replay;
pub mod report;
pub mod rules;
pub mod watcher;
