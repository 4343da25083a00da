//! The queue between the control surface and the render side.
//!
//! The queue is the bounded channel of the standard library. Nothing in this
//! file is proved: each function states what the standard library documents
//! of the call it makes, and that is nothing about which messages arrive or
//! when, since the other end runs on another thread.

use crate::message::Message;
use std::sync::atomic::AtomicU32;
use std::sync::atomic::Ordering;
use std::sync::mpsc::Receiver;
use std::sync::mpsc::SyncSender;
use vstd::prelude::*;

verus! {

/// `std::sync::mpsc::Receiver`, the receiving end of a channel. Its contents
/// are not modelled.
#[verifier::external_type_specification]
#[verifier::external_body]
#[verifier::reject_recursive_types(T)]
pub struct ExReceiver<T>(std::sync::mpsc::Receiver<T>);

/// `std::sync::mpsc::SyncSender`, the sending end of a bounded channel. Its
/// contents are not modelled.
#[verifier::external_type_specification]
#[verifier::external_body]
#[verifier::reject_recursive_types(T)]
pub struct ExSyncSender<T>(std::sync::mpsc::SyncSender<T>);

/// What the render side finds when it looks into the queue.
#[derive(Clone, Copy, Debug, PartialEq, Eq, Structural)]
pub enum Polled {
    /// The oldest message that was waiting.
    Message(Message),
    /// Nothing is waiting.
    Empty,
    /// Nothing is waiting and the sending end is gone.
    Disconnected,
}

/// Calls `std::sync::mpsc::sync_channel`, which makes a channel that holds up
/// to `bound` messages. Nothing is claimed of the two ends.
#[verifier::external_body]
pub(crate) fn open(bound: usize) -> (ends: (SyncSender<Message>, Receiver<Message>)) {
    std::sync::mpsc::sync_channel(bound)
}

/// Calls `Receiver::try_recv`, which returns at once: with a message if one
/// is waiting, and otherwise with the reason why none is. Nothing is claimed
/// of which of the three it is.
#[verifier::external_body]
pub(crate) fn poll(port: &Receiver<Message>) -> (found: Polled) {
    match port.try_recv() {
        Ok(message) => Polled::Message(message),
        Err(std::sync::mpsc::TryRecvError::Empty) => Polled::Empty,
        Err(std::sync::mpsc::TryRecvError::Disconnected) => Polled::Disconnected,
    }
}

/// Calls `SyncSender::send`, which waits while the queue is full and fails
/// only when the receiving end is gone. The result says whether the message
/// was put into the queue; nothing is claimed of which it is.
#[verifier::external_body]
pub(crate) fn send(port: &SyncSender<Message>, message: Message) -> (delivered: bool) {
    port.send(message).is_ok()
}

/// Stores the sample rate where the control surface can read it without
/// waiting for the render side.
pub(crate) fn publish(cell: &AtomicU32, rate: u32) {
    cell.store(rate, Ordering::Relaxed);
}

/// Reads the sample rate last stored. The cell is shared with another thread,
/// so nothing is known of the value.
pub(crate) fn published(cell: &AtomicU32) -> u32 {
    cell.load(Ordering::Relaxed)
}

} // verus!
