use fanin::{start_multiplex, prepare_multiplex, Source, Worker};
use std::sync::mpsc::{channel, Receiver, Sender};

#[derive(PartialEq, Eq, Debug)]
struct A;
#[derive(PartialEq, Eq, Debug)]
struct B;
#[derive(PartialEq, Eq, Debug)]
struct C(String);
#[derive(PartialEq, Eq, Debug)]
enum ABC {
    A(A),
    B(B),
    C(C),
}

struct ASource(Receiver<A>);

impl Source<ABC> for ASource {
    fn fanin(&mut self, sink: Sender<ABC>) {
        loop {
            if let Ok(x) = self.0.recv() {
                let _ = sink.send(ABC::A(x));
            } else {
                return;
            }
        }
    }
}

struct BSource(Receiver<B>);

impl Source<ABC> for BSource {
    fn fanin(&mut self, sink: Sender<ABC>) {
        loop {
            if let Ok(x) = self.0.recv() {
                let _ = sink.send(ABC::B(x));
            } else {
                return;
            }
        }
    }
}

/// A source over a byte transport: decodes each chunk read from its
/// counterpart into text, and treats a closed transport as terminal.
struct ByteSource(Receiver<Vec<u8>>);

impl Source<ABC> for ByteSource {
    fn fanin(&mut self, sink: Sender<ABC>) {
        loop {
            if let Ok(bytes) = self.0.recv() {
                let text = String::from_utf8_lossy(&bytes).into_owned();
                let _ = sink.send(ABC::C(C(text)));
            } else {
                return;
            }
        }
    }
}

/// A source of plain numbers backed by an in-memory queue.
struct NumSource(Receiver<u64>);

impl Source<u64> for NumSource {
    fn fanin(&mut self, sink: Sender<u64>) {
        loop {
            if let Ok(x) = self.0.recv() {
                let _ = sink.send(x);
            } else {
                return;
            }
        }
    }
}

fn run_inline<TOUT: Send + 'static, S: Source<TOUT>>(w: Worker<TOUT, S>) {
    w.run();
}

#[test]
fn three_heterogeneous_sources_yield_each_item_once() {
    let (input_a, src_a) = channel::<A>();
    let (input_b, src_b) = channel::<B>();
    let (transport, src_c) = channel::<Vec<u8>>();

    input_a.send(A).unwrap();
    input_b.send(B).unwrap();
    transport.send("1234".as_bytes().to_vec()).unwrap();
    drop(input_a);
    drop(input_b);
    drop(transport);

    let sources: Vec<Box<dyn Source<ABC>>> = vec![
        Box::new(ASource(src_a)),
        Box::new(BSource(src_b)),
        Box::new(ByteSource(src_c)),
    ];
    let fanout = start_multiplex(sources, run_inline).into_receiver();

    let mut got = Vec::new();
    got.push(fanout.recv().unwrap());
    got.push(fanout.recv().unwrap());
    got.push(fanout.recv().unwrap());

    assert!(got.contains(&ABC::A(A)));
    assert!(got.contains(&ABC::B(B)));
    assert!(got.contains(&ABC::C(C("1234".to_string()))));
    assert!(fanout.recv().is_err());
}

#[test]
fn empty_collection_is_immediately_exhausted() {
    let sources: Vec<Box<dyn Source<u64>>> = Vec::new();
    let fanout = start_multiplex(sources, run_inline).into_receiver();
    assert!(fanout.recv().is_err());
}

#[test]
fn every_item_arrives_exactly_once_in_source_order() {
    let (in_x, src_x) = channel::<u64>();
    let (in_y, src_y) = channel::<u64>();
    for v in [1u64, 2, 3] {
        in_x.send(v).unwrap();
    }
    for v in [10u64, 20] {
        in_y.send(v).unwrap();
    }
    drop(in_x);
    drop(in_y);

    let sources: Vec<Box<dyn Source<u64>>> =
        vec![Box::new(NumSource(src_x)), Box::new(NumSource(src_y))];
    let fanout = start_multiplex(sources, run_inline).into_receiver();

    let mut got = Vec::new();
    while let Ok(v) = fanout.recv() {
        got.push(v);
    }

    assert_eq!(got.len(), 5);
    let from_x: Vec<u64> = got.iter().copied().filter(|v| *v < 10).collect();
    let from_y: Vec<u64> = got.iter().copied().filter(|v| *v >= 10).collect();
    assert_eq!(from_x, vec![1, 2, 3]);
    assert_eq!(from_y, vec![10, 20]);
}

#[test]
fn failed_source_stops_silently_while_others_deliver() {
    let (in_good, src_good) = channel::<u64>();
    let (in_bad, src_bad) = channel::<u64>();
    for v in [7u64, 8, 9] {
        in_good.send(v).unwrap();
    }
    drop(in_good);
    // The failed source's native queue closes before yielding anything.
    drop(in_bad);

    let sources: Vec<Box<dyn Source<u64>>> =
        vec![Box::new(NumSource(src_bad)), Box::new(NumSource(src_good))];
    let fanout = start_multiplex(sources, run_inline).into_receiver();

    let mut got = Vec::new();
    while let Ok(v) = fanout.recv() {
        got.push(v);
    }
    assert_eq!(got, vec![7, 8, 9]);
}

#[test]
fn single_exhausted_source_exhausts_the_stream() {
    let (input, src) = channel::<u64>();
    drop(input);
    let sources: Vec<Box<dyn Source<u64>>> = vec![Box::new(NumSource(src))];
    let fanout = start_multiplex(sources, run_inline).into_receiver();
    assert!(fanout.recv().is_err());
}

#[test]
fn prepare_pairs_one_worker_with_each_source() {
    let (in_x, src_x) = channel::<u64>();
    let (in_y, src_y) = channel::<u64>();
    in_x.send(5).unwrap();
    in_y.send(6).unwrap();
    drop(in_x);
    drop(in_y);

    let sources: Vec<NumSource> = vec![NumSource(src_x), NumSource(src_y)];
    let (workers, fanout) = prepare_multiplex(sources);
    let fanout = fanout.into_receiver();
    assert_eq!(workers.len(), 2);
    for w in workers {
        w.run();
    }
    let mut got = Vec::new();
    while let Ok(v) = fanout.recv() {
        got.push(v);
    }
    got.sort();
    assert_eq!(got, vec![5, 6]);
}
