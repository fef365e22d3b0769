//! The command channel: a bounded queue that carries the user's commands
//! from the panels to the session, in order.

use crate::mpris::types::PlayerCommand;
use tokio::sync::mpsc::{Receiver, Sender};
use vstd::prelude::*;

verus! {

/// Number of commands that can wait in the channel.
pub const COMMAND_QUEUE_CAPACITY: usize = 32;

/// `tokio::sync::mpsc::Sender`: the sending half of a bounded channel.
#[verifier::external_type_specification]
#[verifier::external_body]
#[verifier::reject_recursive_types(T)]
pub struct ExCommandSender<T>(Sender<T>);

/// `tokio::sync::mpsc::Receiver`: the receiving half of a bounded channel.
#[verifier::external_type_specification]
#[verifier::external_body]
#[verifier::reject_recursive_types(T)]
pub struct ExCommandReceiver<T>(Receiver<T>);

/// The number of messages that the channel of a sender was made for: what
/// `Sender::max_capacity` of tokio gives. It stays the same while the channel
/// lives.
pub uninterp spec fn sender_limit(sender: Sender<PlayerCommand>) -> nat;

/// The number of messages that the channel of a receiver was made for: what
/// `Receiver::max_capacity` of tokio gives.
pub uninterp spec fn receiver_limit(receiver: Receiver<PlayerCommand>) -> nat;

/// `tokio::sync::mpsc::channel`: a bounded channel with room for `buffer`
/// messages, which both of its ends keep as their limit. The crate refuses a
/// buffer of zero and one beyond an eighth of the address space.
#[verifier::external_body]
fn bounded_channel(buffer: usize) -> (ends: (Sender<PlayerCommand>, Receiver<PlayerCommand>))
    requires
        0 < buffer <= usize::MAX / 8,
    ensures
        sender_limit(ends.0) == buffer,
        receiver_limit(ends.1) == buffer,
{
    tokio::sync::mpsc::channel(buffer)
}

/// `Sender::try_send` of tokio: puts a message into the channel without
/// waiting; `false` where the channel is full or closed, and the message is
/// dropped.
#[verifier::external_body]
fn try_send_command(sender: &Sender<PlayerCommand>, command: PlayerCommand) -> (sent: bool) {
    sender.try_send(command).is_ok()
}

/// A new command channel. The sender goes to the panels, the receiver to
/// the session, which alone reads from it.
pub fn command_channel() -> (ends: (Sender<PlayerCommand>, Receiver<PlayerCommand>))
    ensures
        sender_limit(ends.0) == COMMAND_QUEUE_CAPACITY,
        receiver_limit(ends.1) == COMMAND_QUEUE_CAPACITY,
{
    bounded_channel(COMMAND_QUEUE_CAPACITY)
}

/// Queues a command without waiting. A command that finds the channel full
/// is dropped, and `false` is returned: the panels never stall, and what a
/// command does can be asked for again.
pub fn send_command(sender: &Sender<PlayerCommand>, command: PlayerCommand) -> (sent: bool) {
    try_send_command(sender, command)
}

} // verus!
