use apca::data::v2::unfold::Polled;
use apca::data::v2::unfold::Step;
use apca::data::v2::unfold::Unfold;

/// A batch comes out one message at a time, in order.
#[test]
fn unfold_batches_in_order() {
    let mut unfold = Unfold::<u32, ()>::new();
    assert!(matches!(unfold.poll_queued(), Step::PollInner));
    let first = unfold.poll_inner(Polled::Ready(Some(Ok(Ok(vec![1, 2, 3])))));
    assert!(matches!(first, Step::Yield(Polled::Ready(Some(Ok(Ok(1)))))));
    assert!(matches!(unfold.poll_queued(), Step::Yield(Polled::Ready(Some(Ok(Ok(2)))))));
    assert!(matches!(unfold.poll_queued(), Step::Yield(Polled::Ready(Some(Ok(Ok(3)))))));
    assert!(matches!(unfold.poll_queued(), Step::PollInner));
}

/// Pending states, errors, and the end of the wrapped stream are passed
/// on; an empty batch has the wrapped stream polled again.
#[test]
fn unfold_passes_on() {
    let mut unfold = Unfold::<u32, &'static str>::new();
    assert!(matches!(unfold.poll_inner(Polled::Pending), Step::Yield(Polled::Pending)));
    assert!(matches!(unfold.poll_inner(Polled::Ready(None)), Step::Yield(Polled::Ready(None))));
    assert!(matches!(
        unfold.poll_inner(Polled::Ready(Some(Ok(Err("bad"))))),
        Step::Yield(Polled::Ready(Some(Ok(Err("bad")))))
    ));
    assert!(matches!(unfold.poll_inner(Polled::Ready(Some(Ok(Ok(vec![]))))), Step::PollInner));
    let closed = websocket_util::tungstenite::Error::ConnectionClosed;
    assert!(matches!(
        unfold.poll_inner(Polled::Ready(Some(Err(closed)))),
        Step::Yield(Polled::Ready(Some(Err(_))))
    ));
}

/// Batches come out flattened, in order, with an empty batch skipped,
/// until the wrapped stream ends.
#[test]
fn unfolding() {
    let batches = vec![vec![1], vec![2, 3, 4], vec![], vec![5, 6]];
    let mut inner = batches.into_iter();
    let mut unfold = Unfold::<u32, ()>::new();
    let mut result = Vec::new();
    loop {
        let mut step = unfold.poll_queued();
        let polled = loop {
            match step {
                Step::Yield(p) => break p,
                Step::PollInner => {
                    let next = match inner.next() {
                        Some(batch) => Polled::Ready(Some(Ok(Ok(batch)))),
                        None => Polled::Ready(None),
                    };
                    step = unfold.poll_inner(next);
                },
            }
        };
        match polled {
            Polled::Ready(Some(Ok(Ok(m)))) => result.push(m),
            Polled::Ready(None) => break,
            _ => panic!("unexpected poll result"),
        }
    }
    assert_eq!(result, (1..=6).collect::<Vec<_>>());
}
