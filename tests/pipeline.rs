use flowd::component::{Lifecycle, Phase};
use flowd::components::filereader::FileReaderComponent;
use flowd::components::splitlines::SplitLinesComponent;
use flowd::components::trim::TrimComponent;
use flowd::edge::Edge;
use flowd::host::{Host, WorkerState};

fn ip(s: &str) -> Vec<u8> {
    s.as_bytes().to_vec()
}

/// One round of a component: drain the input through `f` into the output,
/// then leave (abandoning the output) if the input is closed.
fn round<F: Fn(&[u8]) -> Vec<Vec<u8>>>(life: &mut Lifecycle, inn: &mut Edge, out: &mut Edge, f: F) -> bool {
    while let Some(p) = inn.pop() {
        for o in f(&p) {
            out.push(o).unwrap();
        }
    }
    let exit = life.on_drained(&vec![inn.is_closed()]);
    if exit {
        out.abandon();
    }
    exit
}

#[test]
fn file_reader_forwards_contents_then_closes() {
    let mut names = Edge::new(8);
    let mut out = Edge::new(8);
    let mut life = Lifecycle::new();
    names.push(ip("/tmp/a")).unwrap();
    names.push(ip("/tmp/b")).unwrap();
    let read = |p: &[u8]| -> Vec<Vec<u8>> {
        match FileReaderComponent::<(), ()>::path_of(p).as_deref() {
            Some("/tmp/a") => vec![ip("hello\n")],
            Some("/tmp/b") => vec![ip("world")],
            _ => Vec::new(),
        }
    };
    assert!(!round(&mut life, &mut names, &mut out, read));
    assert_eq!(out.pop(), Some(ip("hello\n")));
    assert_eq!(out.pop(), Some(ip("world")));
    names.abandon();
    assert!(round(&mut life, &mut names, &mut out, read));
    assert_eq!(life.phase(), Phase::Finished);
    assert!(out.is_closed());
}

#[test]
fn eof_travels_down_a_chain() {
    let mut e0 = Edge::new(4);
    let mut e1 = Edge::new(4);
    let mut e2 = Edge::new(4);
    let mut trim = Lifecycle::new();
    let mut split = Lifecycle::new();
    e0.push(ip("  alpha\nbeta\ngamma  ")).unwrap();
    e0.abandon();
    let t = |p: &[u8]| TrimComponent::<(), ()>::transform(p).into_iter().collect::<Vec<Vec<u8>>>();
    let s = |p: &[u8]| SplitLinesComponent::<(), ()>::transform(p).unwrap_or_default();
    assert!(round(&mut trim, &mut e0, &mut e1, t));
    assert!(e1.is_abandoned());
    assert!(round(&mut split, &mut e1, &mut e2, s));
    assert_eq!(split.phase(), Phase::Finished);
    assert_eq!(e2.pop(), Some(ip("alpha")));
    assert_eq!(e2.pop(), Some(ip("beta")));
    assert_eq!(e2.pop(), Some(ip("gamma")));
    assert!(e2.is_closed());
}

#[test]
fn pings_answered_before_stop() {
    let mut life = Lifecycle::new();
    let mut pongs: Vec<Vec<u8>> = Vec::new();
    for _ in 0..3 {
        pongs.extend(life.on_signals(&vec![ip("ping")]).replies);
    }
    assert_eq!(pongs, vec![ip("pong"), ip("pong"), ip("pong")]);
    let a = life.on_signals(&vec![ip("stop")]);
    assert!(a.stop && a.replies.is_empty());
    assert_eq!(life.phase(), Phase::Stopped);
}

#[test]
fn stop_converges_for_every_worker() {
    let mut host = Host::new(4);
    let mut lives: Vec<Lifecycle> = (0..4).map(|_| Lifecycle::new()).collect();
    let targets = host.broadcast_stop();
    assert_eq!(targets, vec![0, 1, 2, 3]);
    for i in targets {
        let a = lives[i].on_signals(&vec![ip("ping"), ip("stop")]);
        assert!(a.stop);
        host.worker_exited(i);
    }
    assert!(host.all_exited());
    assert!(lives.iter().all(|l| l.phase() == Phase::Stopped));
    assert_eq!(host.state(3), WorkerState::Exited);
}
