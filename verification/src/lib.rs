//! A concurrent fan-in multiplexer: every source runs on an execution unit of
//! its own and forwards the items it yields into one shared merged stream,
//! which the caller drains through a single receiving handle.
//!
//! The engine never spawns by itself: `start_multiplex` hands each prepared
//! worker to a caller-supplied spawner, so the thread plumbing stays outside
//! the verified library, while the pairing of sources with sender clones and
//! the workers' forwarding entry point are verified here.

use vstd::prelude::*;

pub mod merge;
mod channel;

use channel::{new_channel, clone_sink};
pub use channel::{Sink, Fanout};
use std::sync::mpsc::Sender;

verus! {

/// The capability every item source must implement to take part in a
/// multiplex: pull items from the native source and forward each one into
/// `sink` until the source is exhausted or fails terminally. A transient
/// failure of the native source must be absorbed inside `fanin`; returning
/// early silently removes the source from the merge. A failed send means the
/// reader side is gone and must be treated as terminal.
pub trait Source<TOUT: Send>: 'static + Send {
    fn fanin(&mut self, sink: Sender<TOUT>);
}

/// A boxed source forwards exactly as the source it owns, so a multiplex may
/// mix arbitrarily different concrete source implementations in one
/// `Vec<Box<dyn Source<TOUT>>>`.
impl<TOUT: Send + 'static> Source<TOUT> for Box<dyn Source<TOUT>> {
    fn fanin(&mut self, sink: Sender<TOUT>) {
        (**self).fanin(sink);
    }
}

/// One worker of a multiplex: exclusive owner of one source and of one clone
/// of the merged stream's sender side.
#[verifier::reject_recursive_types(TOUT)]
pub struct Worker<TOUT: Send + 'static, S: Source<TOUT>> {
    pub source: S,
    pub sink: Sink<TOUT>,
}

impl<TOUT: Send + 'static, S: Source<TOUT>> Worker<TOUT, S> {
    /// The forwarding loop of one execution unit: drives the owned source
    /// until it is exhausted or fails terminally, then drops the owned
    /// sender clone, which is this worker's part in closing the merged
    /// stream.
    pub fn run(self) {
        let Worker { mut source, sink } = self;
        source.fanin(sink.into_sender());
    }
}

/// Builds the merged stream and one worker per source: the worker at each
/// position owns exactly the source that stood at that position, paired with
/// its own clone of the stream's sender side — every worker's sink feeds the
/// one channel that the returned handle drains, and the contract says so.
/// Returns the workers together with the stream's single receiving handle.
pub fn prepare_multiplex<TOUT: 'static + Send, S: Source<TOUT>>(sources: Vec<S>) -> (r: (Vec<Worker<TOUT, S>>, Fanout<TOUT>))
    ensures
        r.0@.len() == sources@.len(),
        forall|i: int| 0 <= i < sources@.len() ==> r.0@[i].source == sources@[i],
        forall|i: int| 0 <= i < r.0@.len() ==> (#[trigger] r.0@[i]).sink.chan() == r.1.chan(),
{
    let (sink, fanout) = new_channel();
    let mut workers: Vec<Worker<TOUT, S>> = Vec::new();
    let mut rest = sources;
    let ghost all = rest@;
    while rest.len() > 0
        invariant
            workers@.len() + rest@.len() == all.len(),
            rest@ == all.skip(workers@.len() as int),
            forall|i: int| 0 <= i < workers@.len() ==> workers@[i].source == all[i],
            forall|i: int| 0 <= i < workers@.len() ==> (#[trigger] workers@[i]).sink.chan() == sink.chan(),
            sink.chan() == fanout.chan(),
        decreases rest.len(),
    {
        let ghost k = workers@.len() as int;
        let src = rest.remove(0);
        proof {
            assert(all.skip(k)[0] == all[k]);
            assert(all.skip(k).remove(0) =~= all.skip(k + 1));
        }
        let w = Worker { source: src, sink: clone_sink(&sink) };
        workers.push(w);
    }
    (workers, fanout)
}

/// Turns a collection of sources into one merged stream: prepares one worker
/// per source and hands every worker to `spawner`, which is expected to start
/// it on an execution unit of its own (`Worker::run` is the worker's entry
/// point). Returns the stream's single receiving handle without waiting for
/// any worker. An empty collection is valid: every sender clone is then
/// already dropped and the receiver reports exhaustion at once.
///
/// The contract states what the call leaves behind: one worker existed per
/// source, the worker at each position owning exactly that source and a sink
/// feeding the channel the returned handle drains, and every one of them went
/// through the spawner — witnessed by the spawner's own postcondition facts,
/// which only a call can produce.
pub fn start_multiplex<TOUT: 'static + Send, S: Source<TOUT>, SP: Fn(Worker<TOUT, S>)>(sources: Vec<S>, spawner: SP) -> (r: Fanout<TOUT>)
    requires
        forall|w: Worker<TOUT, S>| spawner.requires((w,)),
    ensures
        exists|ws: Seq<Worker<TOUT, S>>|
            ws.len() == sources@.len()
            && (forall|i: int| #![trigger ws[i]] 0 <= i < ws.len() ==> ws[i].source == sources@[i])
            && (forall|i: int| #![trigger ws[i]] 0 <= i < ws.len() ==> ws[i].sink.chan() == r.chan())
            && (forall|i: int| #![trigger ws[i]] 0 <= i < ws.len() ==> call_ensures(spawner, (ws[i],), ())),
{
    let (mut workers, fanout) = prepare_multiplex(sources);
    let ghost all = workers@;
    while workers.len() > 0
        invariant
            forall|w: Worker<TOUT, S>| spawner.requires((w,)),
            workers@ == all.take(workers@.len() as int),
            workers@.len() <= all.len(),
            forall|i: int| #![trigger all[i]] workers@.len() <= i < all.len() ==> call_ensures(spawner, (all[i],), ()),
        decreases workers.len(),
    {
        let ghost k = workers@.len() as int;
        let w = workers.pop().unwrap();
        proof {
            assert(w == all.take(k)[k - 1]);
            assert(all.take(k).subrange(0, k - 1) =~= all.take(k - 1));
        }
        spawner(w);
    }
    proof {
        assert(all.len() == sources@.len());
        assert(forall|i: int| #![trigger all[i]] 0 <= i < all.len() ==> all[i].source == sources@[i]);
        assert(forall|i: int| #![trigger all[i]] 0 <= i < all.len() ==> all[i].sink.chan() == fanout.chan());
        assert(forall|i: int| #![trigger all[i]] 0 <= i < all.len() ==> call_ensures(spawner, (all[i],), ()));
    }
    fanout
}

} // verus!
