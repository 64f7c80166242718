//! The message queue to the ground station link.

use vstd::prelude::*;

use std::sync::mpsc::{Receiver, SendError, Sender};

verus! {

#[verifier::external_type_specification]
#[verifier::external_body]
#[verifier::reject_recursive_types(T)]
pub struct ExSender<T>(Sender<T>);

#[verifier::external_type_specification]
#[verifier::external_body]
#[verifier::reject_recursive_types(T)]
pub struct ExReceiver<T>(Receiver<T>);

/// `std::sync::mpsc::Sender::send`: queues the message for the receiving
/// end. It fails only when the receiving end is gone, and then hands the
/// message back; which of the two happens depends on the other end, so
/// nothing is stated of success.
#[verifier::external_body]
fn send_bytes(tx: &Sender<Vec<u8>>, msg: Vec<u8>) -> (r: Result<(), Vec<u8>>)
    ensures
        r matches Err(returned) ==> returned@ == msg@,
{
    match tx.send(msg) {
        Ok(()) => Ok(()),
        Err(SendError(returned)) => Err(returned),
    }
}

/// Queues encoded messages for the connection thread.
pub struct Tasker {
    tx: Sender<Vec<u8>>,
    rx: Receiver<Vec<u8>>,
}

impl Tasker {
    pub closed spec fn sender(&self) -> Sender<Vec<u8>> {
        self.tx
    }

    pub closed spec fn receiver(&self) -> Receiver<Vec<u8>> {
        self.rx
    }

    /// A tasker over the two ends of the connection's queues.
    pub fn new(tx: Sender<Vec<u8>>, rx: Receiver<Vec<u8>>) -> (tasker: Tasker)
        ensures
            tasker.sender() == tx,
            tasker.receiver() == rx,
    {
        Tasker { tx: tx, rx: rx }
    }

    /// Queues an encoded message; a message for a closed connection is
    /// dropped.
    pub fn send_message(&self, msg: Vec<u8>) {
        let _ = send_bytes(&self.tx, msg);
    }
}

} // verus!
