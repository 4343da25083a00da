//! A pull-driven engine for periodic waveforms on several channels.
//!
//! An audio backend asks for one block of samples at a time; a control
//! surface changes what is played by sending messages. The crate holds what
//! both sides share:
//!
//! - [`message`]: the configuration of a channel and the two commands.
//! - [`channel`]: one oscillator, a configuration and a sample counter.
//! - [`processor`]: the channel list, the messages applied to it, and the
//!   planar block it is rendered into.
//! - [`wire`] and [`bytes`]: the byte form of a message.
//! - [`engine`]: the control half and the render half of a running engine.
//! - [`transport`]: the queue between the two halves.
//!
//! The crate does no arithmetic on real numbers. Parameters and samples are
//! IEEE-754 bit patterns, and the value of a sample comes from a kernel that
//! the caller supplies; everything stated here holds for every kernel.

pub mod bytes;
pub mod channel;
pub mod engine;
pub mod message;
pub mod processor;
pub mod transport;
pub mod wire;
