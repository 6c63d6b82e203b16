//! The playback command channel: an unbounded multi-producer,
//! single-consumer FIFO carrying [`Command`] values from caller threads
//! to the one audio worker.
//!
//! The channel is the only structure shared between threads; everything
//! it carries is owned by exactly one side at a time.  Delivery is
//! lossless and per-producer FIFO; the only failure the producers can
//! observe is that the consumer is gone.

use vstd::prelude::*;

use crossbeam_channel::Receiver;
use crossbeam_channel::Sender;

use crate::command::AudioError;
use crate::command::Command;

verus! {

#[verifier::external_type_specification]
#[verifier::external_body]
#[verifier::reject_recursive_types(T)]
pub struct ExSender<T>(Sender<T>);

#[verifier::external_type_specification]
#[verifier::external_body]
#[verifier::reject_recursive_types(T)]
pub struct ExReceiver<T>(Receiver<T>);

/// Relies on `crossbeam_channel::unbounded`: a fresh channel of
/// unbounded capacity whose two halves are connected to each other.
#[verifier::external_body]
fn channel_pair() -> (Sender<Command>, Receiver<Command>) {
    crossbeam_channel::unbounded()
}

/// Relies on `crossbeam_channel::Sender::send`: on an unbounded channel
/// it never blocks; it queues the message, or hands the very message
/// back inside `SendError` once every receiver has been dropped.
#[verifier::external_body]
fn send_msg(tx: &Sender<Command>, c: Command) -> (r: Result<(), Command>)
    ensures
        r matches Err(m) ==> m == c,
{
    tx.send(c).map_err(|e| e.0)
}

/// Relies on `crossbeam_channel::Sender::clone`: another producer
/// handle connected to the same channel.
#[verifier::external_body]
fn clone_sender(tx: &Sender<Command>) -> Sender<Command> {
    tx.clone()
}

/// Relies on `crossbeam_channel::Receiver::recv`: blocks until a
/// message is available, and fails only once the channel is both empty
/// and disconnected (every sender dropped).
#[verifier::external_body]
fn recv_msg(rx: &Receiver<Command>) -> Option<Command> {
    rx.recv().ok()
}

/// Relies on `crossbeam_channel::Receiver::try_recv`: a non-blocking
/// probe; its three outcomes map one-for-one onto [`ChannelPoll`].
#[verifier::external_body]
fn try_recv_msg(rx: &Receiver<Command>) -> ChannelPoll {
    match rx.try_recv() {
        Ok(c) => ChannelPoll::Got(c),
        Err(crossbeam_channel::TryRecvError::Empty) => ChannelPoll::Nothing,
        Err(crossbeam_channel::TryRecvError::Disconnected) => ChannelPoll::Closed,
    }
}

/// Outcome of a non-blocking probe of the channel.
#[derive(Debug, Clone, PartialEq, Eq)]
pub enum ChannelPoll {
    /// A command was waiting.
    Got(Command),
    /// Nothing queued right now, but producers may still send.
    Nothing,
    /// Empty and every producer handle has been dropped.
    Closed,
}

/// A producer handle: any number of caller threads may hold one.
pub struct AudioTx {
    tx: Sender<Command>,
}

/// The consumer handle: owned by the one audio worker.
pub struct AudioRx {
    rx: Receiver<Command>,
}

/// A fresh command channel: one producer handle, the worker's consumer
/// handle.
pub fn audio_channel() -> (AudioTx, AudioRx) {
    let pair = channel_pair();
    (AudioTx { tx: pair.0 }, AudioRx { rx: pair.1 })
}

impl AudioTx {
    /// Enqueue one command.  Never blocks; fails only when the worker
    /// (the sole consumer) has terminated.
    pub fn send(&self, c: Command) -> (r: Result<(), AudioError>)
        ensures
            r matches Err(e) ==> e == AudioError::ChannelClosed,
    {
        match send_msg(&self.tx, c) {
            Ok(()) => Ok(()),
            Err(_) => Err(AudioError::ChannelClosed),
        }
    }

    /// Another producer handle onto the same channel.
    pub fn duplicate(&self) -> AudioTx {
        AudioTx { tx: clone_sender(&self.tx) }
    }
}

impl AudioRx {
    /// Wait for the next command; `None` means every producer is gone
    /// and the worker should terminate.
    pub fn recv(&self) -> Option<Command> {
        recv_msg(&self.rx)
    }

    /// Probe without blocking.
    pub fn poll(&self) -> ChannelPoll {
        try_recv_msg(&self.rx)
    }
}

} // verus!
