//! Trusted declarations for the multi-writer, single-reader channel of
//! `std::sync::mpsc` that carries the merged stream. The two halves are
//! wrapped so that which channel a handle belongs to is visible to contracts
//! as a ghost identity: only the trusted constructors below create the
//! wrappers, so two handles with the same identity really are two ends of
//! one channel.

use vstd::prelude::*;

verus! {

#[verifier::external_type_specification]
#[verifier::external_body]
#[verifier::reject_recursive_types(T)]
pub struct ExSender<T>(std::sync::mpsc::Sender<T>);

#[verifier::external_type_specification]
#[verifier::external_body]
#[verifier::reject_recursive_types(T)]
pub struct ExReceiver<T>(std::sync::mpsc::Receiver<T>);

/// The writer side of a merged stream: one clone of the underlying
/// channel's sender, carrying the ghost identity of the channel it feeds.
#[verifier::reject_recursive_types(T)]
pub struct Sink<T> {
    tx: std::sync::mpsc::Sender<T>,
    id: Ghost<int>,
}

/// The single reader side of a merged stream, carrying the ghost identity
/// of the channel it drains.
#[verifier::reject_recursive_types(T)]
pub struct Fanout<T> {
    rx: std::sync::mpsc::Receiver<T>,
    id: Ghost<int>,
}

impl<T> Sink<T> {
    /// The identity of the channel this sink feeds.
    pub closed spec fn chan(&self) -> int {
        self.id@
    }

    /// Hands out the raw sender, through which a worker's source forwards
    /// its items.
    pub(crate) fn into_sender(self) -> std::sync::mpsc::Sender<T> {
        let Sink { tx, id: _ } = self;
        tx
    }
}

impl<T> Fanout<T> {
    /// The identity of the channel this handle drains.
    pub closed spec fn chan(&self) -> int {
        self.id@
    }

    /// Hands out the raw receiver, through which the caller drains the
    /// merged stream until it reports exhaustion.
    pub fn into_receiver(self) -> std::sync::mpsc::Receiver<T> {
        let Fanout { rx, id: _ } = self;
        rx
    }
}

/// Relies on std::sync::mpsc::channel: creates one unbounded channel and
/// returns its two halves. The sender side may be cloned and used from many
/// threads; the receiver blocks until an item arrives or every sender has
/// been dropped, and reports exhaustion after that. The two halves are ends
/// of the same channel, so they carry one identity.
#[verifier::external_body]
pub(crate) fn new_channel<T>() -> (r: (Sink<T>, Fanout<T>))
    ensures
        r.0.chan() == r.1.chan(),
{
    let (tx, rx) = std::sync::mpsc::channel();
    (Sink { tx, id: Ghost(0) }, Fanout { rx, id: Ghost(0) })
}

/// Relies on the Clone impl of std::sync::mpsc::Sender: the clone feeds the
/// same channel as the original, so it keeps the original's identity.
#[verifier::external_body]
pub(crate) fn clone_sink<T>(s: &Sink<T>) -> (r: Sink<T>)
    ensures
        r.chan() == s.chan(),
{
    Sink { tx: s.tx.clone(), id: s.id }
}

} // verus!
