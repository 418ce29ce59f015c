use easy_proxy::error::ErrorKind;
use easy_proxy::zero_copy::{Action, Event, ZeroCopy};

#[test]
fn default_length() {
    assert_eq!(ZeroCopy::new(None).action(), Action::Fill { len: 4096 });
    assert_eq!(ZeroCopy::new(Some(65535)).action(), Action::Fill { len: 65535 });
}

#[test]
fn pipe_is_drained_before_it_is_filled_again() {
    let mut copy = ZeroCopy::new(Some(100));
    assert_eq!(copy.step(Event::Moved { n: 70 }), Action::Drain { len: 70 });
    assert_eq!(copy.step(Event::Moved { n: 30 }), Action::Drain { len: 40 });
    assert_eq!(copy.step(Event::Moved { n: 0 }), Action::Drain { len: 40 });
    assert_eq!(copy.step(Event::Moved { n: 40 }), Action::Fill { len: 100 });
    assert_eq!(copy.step(Event::Moved { n: 5 }), Action::Drain { len: 5 });
    assert_eq!(copy.step(Event::Moved { n: 5 }), Action::Fill { len: 100 });
    assert_eq!(copy.step(Event::Moved { n: 0 }), Action::Finish { total: 75 });
}

#[test]
fn empty_source() {
    let mut copy = ZeroCopy::new(None);
    assert_eq!(copy.step(Event::Moved { n: 0 }), Action::Finish { total: 0 });
}

#[test]
fn would_block_is_tried_again() {
    let again = Event::Failed { kind: ErrorKind::WouldBlock };
    let mut copy = ZeroCopy::new(Some(8));
    assert_eq!(copy.step(again), Action::Fill { len: 8 });
    assert_eq!(copy.step(Event::Moved { n: 8 }), Action::Drain { len: 8 });
    assert_eq!(copy.step(again), Action::Drain { len: 8 });
    assert_eq!(copy.step(Event::Moved { n: 3 }), Action::Drain { len: 5 });
}

#[test]
fn other_failures_end_the_copy() {
    for kind in [ErrorKind::Other, ErrorKind::ConnectionAborted, ErrorKind::InvalidInput] {
        let mut copy = ZeroCopy::new(None);
        assert_eq!(copy.step(Event::Failed { kind }), Action::Abort);
        let mut copy = ZeroCopy::new(None);
        copy.step(Event::Moved { n: 9 });
        assert_eq!(copy.step(Event::Failed { kind }), Action::Abort);
    }
    let mut copy = ZeroCopy::new(None);
    assert_eq!(copy.step(Event::WaitFailed), Action::Abort);
}

#[test]
fn impossible_events_are_told_apart() {
    let mut copy = ZeroCopy::new(None);
    assert!(copy.accepts(Event::Moved { n: usize::MAX }));
    copy.step(Event::Moved { n: 2 });
    assert!(copy.accepts(Event::Moved { n: 2 }));
    assert!(!copy.accepts(Event::Moved { n: 3 }));
    assert!(copy.accepts(Event::WaitFailed));
    copy.step(Event::Moved { n: 2 });
    assert!(copy.accepts(Event::Moved { n: usize::MAX - 2 }));
    assert!(!copy.accepts(Event::Moved { n: usize::MAX - 1 }));
}

/// Copies `source` in moves of the given sizes, and checks that the sink gets all of it in
/// order.
fn copy_all(source: &[u8], most: usize, sizes: &[usize]) {
    let mut copy = ZeroCopy::new(Some(most));
    let mut action = copy.action();
    let (mut at, mut pipe, mut sink) = (0, Vec::new(), Vec::new());
    let mut turn = 0;
    loop {
        let size = sizes[turn % sizes.len()];
        turn += 1;
        let n = match action {
            Action::Fill { len } => {
                assert_eq!(sink, source[..at].to_vec());
                let n = size.min(len).min(source.len() - at);
                pipe.extend_from_slice(&source[at..at + n]);
                at += n;
                n
            }
            Action::Drain { len } => {
                assert_eq!(len, pipe.len());
                assert!(len <= most);
                let n = size.min(len);
                sink.extend(pipe.drain(..n));
                n
            }
            Action::Finish { total } => {
                assert_eq!(total, source.len());
                assert_eq!(sink, source);
                return;
            }
            Action::Abort => panic!("no failure was handed in"),
        };
        assert_eq!(source[..at].to_vec(), [sink.clone(), pipe.clone()].concat());
        action = copy.step(Event::Moved { n });
    }
}

#[test]
fn nothing_is_lost() {
    let source: Vec<u8> = (0..1000).map(|i| (i % 251) as u8).collect();
    copy_all(&source, 64, &[64]);
    copy_all(&source, 64, &[1, 7, 13]);
    copy_all(&source, 4096, &[1000, 3]);
    copy_all(&[], 10, &[1]);
}
