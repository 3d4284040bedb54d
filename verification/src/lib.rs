//! Supply selection and voltage scaling for a microcontroller's power
//! control unit.
//!
//! The unit routes the core voltage VCORE through a linear regulator, a
//! switched-mode converter, both, or neither. The routing can be written
//! once after each power-on reset. This crate holds the decisions of that
//! one commit: which fields to write for which strategy, how to judge the
//! read-back, and in which order to wait for the unit before the voltage
//! scale is raised. It reaches no register itself.

pub mod pwr;
pub mod sequencer;
pub mod supply;
pub mod trace;
