//! SD/MMC host-controller driver core.
//!
//! This crate holds the hardware-independent part of an SD/MMC bring-up
//! driver for an i.MX RT uSDHC peripheral: the command encoding that turns a
//! semantic card command into the two 32-bit register words the controller
//! consumes, the clock tuner that derives divider settings from a base clock
//! and a target rate, the pure predicates over the controller's status
//! registers, and the card bring-up sequencer, modelled as an explicit state
//! machine whose decisions are verified while the surrounding runner performs
//! the register accesses.

pub mod block_transfer;
pub mod clock;
pub mod commands;
pub mod constants;
pub mod controller;
pub mod sd_card;
pub mod sequencer;
