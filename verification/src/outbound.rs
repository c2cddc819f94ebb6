use tokio::sync::mpsc::error::TrySendError;
use tokio::sync::mpsc::Sender;
use vstd::prelude::*;

verus! {

/// `tokio::sync::mpsc::Sender`, taken as it is: the sending half of a bounded
/// queue whose receiver lives elsewhere.
#[verifier::external_type_specification]
#[verifier::external_body]
#[verifier::reject_recursive_types(T)]
pub struct ExSender<T>(Sender<T>);

/// What became of one attempt to put a frame on a subscriber's queue.
#[derive(Clone, Copy, Debug, PartialEq, Eq, Structural)]
pub enum Enqueue {
    /// The queue took the frame.
    Accepted,
    /// The queue already holds as many frames as it was made for.
    Full,
    /// The receiving half of the queue is gone.
    Closed,
}

/// `Sender::clone`: a second handle on the same queue.
#[verifier::external_body]
fn queue_share(sender: &Sender<Vec<u8>>) -> (shared: Sender<Vec<u8>>) {
    sender.clone()
}

/// `Sender::try_send`: offers the frame to the queue. The call never waits.
/// Whether the queue takes the frame depends on how full it is and on whether
/// its receiver still lives, so nothing is claimed of the outcome.
#[verifier::external_body]
fn queue_try_send(sender: &Sender<Vec<u8>>, frame: Vec<u8>) -> (outcome: Enqueue) {
    match sender.try_send(frame) {
        Ok(()) => Enqueue::Accepted,
        Err(TrySendError::Full(_)) => Enqueue::Full,
        Err(TrySendError::Closed(_)) => Enqueue::Closed,
    }
}

/// The sending half of one connection's outbound queue, together with the
/// number of the connection that drains it.
pub struct Outbox {
    connection: u64,
    sender: Sender<Vec<u8>>,
}

impl Outbox {
    /// The number of the connection that this queue belongs to.
    pub closed spec fn connection_id(&self) -> u64 {
        self.connection
    }

    pub fn new(connection: u64, sender: Sender<Vec<u8>>) -> (outbox: Outbox)
        ensures
            outbox.connection_id() == connection,
    {
        Outbox { connection, sender }
    }

    pub fn connection(&self) -> (id: u64)
        ensures
            id == self.connection_id(),
    {
        self.connection
    }

    /// A second handle on the same queue, for the same connection.
    pub fn another_handle(&self) -> (outbox: Outbox)
        ensures
            outbox.connection_id() == self.connection_id(),
    {
        Outbox { connection: self.connection, sender: queue_share(&self.sender) }
    }

    /// Offers a copy of `frame` to the queue, without waiting, and says what
    /// became of it.
    pub fn try_enqueue(&self, frame: &Vec<u8>) -> (outcome: Enqueue) {
        queue_try_send(&self.sender, frame.clone())
    }
}

} // verus!
