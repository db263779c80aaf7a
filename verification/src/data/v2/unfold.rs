//! Unfolding of a stream of batches into a stream of their messages.
//!
//! Market data arrives in batches: each websocket message carries a
//! list of data messages. `Unfold` hands them out one at a time, in the
//! order in which they arrived.

use vstd::prelude::*;

use core::marker::PhantomData;

use websocket_util::tungstenite::Error as WebSocketError;

verus! {

/// The readiness of a value that is produced asynchronously.
#[derive(Debug)]
pub enum Polled<X> {
    /// The value is not available yet.
    Pending,
    /// The value is available.
    Ready(X),
}

/// An item of the wrapped stream: a batch of messages, a batch that could
/// not be decoded, or a websocket error.
pub type Batch<T, E> = Result<Result<Vec<T>, E>, WebSocketError>;

/// An item of the unfolded stream.
pub type Item<T, E> = Result<Result<T, E>, WebSocketError>;

/// What polling the unfolded stream does next.
#[derive(Debug)]
pub enum Step<T, E> {
    /// Poll the wrapped stream and hand its result to
    /// [`Unfold::poll_inner`].
    PollInner,
    /// Report this result.
    Yield(Polled<Option<Item<T, E>>>),
}

/// A stream that unfolds the batches of a wrapped stream into their
/// messages: the messages received but not yet forwarded are held here.
#[derive(Debug)]
#[verifier::reject_recursive_types(T)]
#[verifier::reject_recursive_types(E)]
pub struct Unfold<T, E> {
    messages: Vec<T>,
    _phantom: PhantomData<E>,
}

/// A message handed out by the unfolded stream.
pub open spec fn item<T, E>(m: T) -> Polled<Option<Item<T, E>>> {
    Polled::Ready(Some(Ok(Ok(m))))
}

/// What [`Unfold::poll_queued`] does with the held messages `q`: the step
/// it takes, and the messages held after it.
pub open spec fn queued_step<T, E>(q: Seq<T>) -> (Step<T, E>, Seq<T>) {
    if q.len() > 0 {
        (Step::Yield(item(q[0])), q.drop_first())
    } else {
        (Step::PollInner, q)
    }
}

/// What [`Unfold::poll_inner`] does, with nothing held, with a result of
/// the wrapped stream: the step it takes, and the messages held after it.
pub open spec fn inner_step<T, E>(polled: Polled<Option<Batch<T, E>>>) -> (Step<T, E>, Seq<T>) {
    match polled {
        Polled::Ready(Some(Ok(Ok(batch)))) => queued_step(batch@),
        Polled::Ready(Some(Ok(Err(e)))) => (Step::Yield(Polled::Ready(Some(Ok(Err(e))))), Seq::empty()),
        Polled::Ready(Some(Err(e))) => (Step::Yield(Polled::Ready(Some(Err(e)))), Seq::empty()),
        Polled::Ready(None) => (Step::Yield(Polled::Ready(None)), Seq::empty()),
        Polled::Pending => (Step::Yield(Polled::Pending), Seq::empty()),
    }
}

/// What the unfolded stream reports when it is polled again and again,
/// holding the messages `q`, while the wrapped stream gives the results
/// `polled` in turn: each poll takes [`queued_step`] and, where that asks
/// for the wrapped stream, [`inner_step`] on its next result, until the
/// wrapped stream's results run out.
pub open spec fn unfolded<T, E>(q: Seq<T>, polled: Seq<Polled<Option<Batch<T, E>>>>) -> Seq<
    Polled<Option<Item<T, E>>>,
>
    decreases polled.len(), q.len(),
{
    let (step, held) = queued_step::<T, E>(q);
    match step {
        Step::Yield(p) => seq![p] + unfolded(held, polled),
        Step::PollInner => if polled.len() == 0 {
            Seq::empty()
        } else {
            let (step2, held2) = inner_step(polled[0]);
            match step2 {
                Step::Yield(p) => seq![p] + unfolded(held2, polled.drop_first()),
                Step::PollInner => unfolded(held2, polled.drop_first()),
            }
        },
    }
}

/// The messages `q`, each as the unfolded stream hands it out.
pub open spec fn items<T, E>(q: Seq<T>) -> Seq<Polled<Option<Item<T, E>>>> {
    q.map_values(|m: T| item::<T, E>(m))
}

/// What a result of the wrapped stream becomes in the unfolded one: the
/// messages of a batch, one by one (none for an empty batch); any other
/// result as it is.
pub open spec fn outcome<T, E>(polled: Polled<Option<Batch<T, E>>>) -> Seq<
    Polled<Option<Item<T, E>>>,
> {
    match polled {
        Polled::Ready(Some(Ok(Ok(batch)))) => items(batch@),
        Polled::Ready(Some(Ok(Err(e)))) => seq![Polled::Ready(Some(Ok(Err(e))))],
        Polled::Ready(Some(Err(e))) => seq![Polled::Ready(Some(Err(e)))],
        Polled::Ready(None) => seq![Polled::Ready(None)],
        Polled::Pending => seq![Polled::Pending],
    }
}

/// The results `polled` of the wrapped stream, each replaced by what it
/// becomes in the unfolded stream, in order.
pub open spec fn flattened<T, E>(polled: Seq<Polled<Option<Batch<T, E>>>>) -> Seq<
    Polled<Option<Item<T, E>>>,
>
    decreases polled.len(),
{
    if polled.len() == 0 {
        Seq::empty()
    } else {
        outcome(polled[0]) + flattened(polled.drop_first())
    }
}

/// The unfolded stream hands out the messages it holds, in order, and
/// then each batch of the wrapped stream, message by message and in order,
/// in the place of the batch (nothing for an empty batch); an error, the
/// end, or the pending state of the wrapped stream is passed on in its
/// place. So it reports a pending state or its end only once no message
/// is held and the wrapped stream is pending or has ended; a new
/// `Unfold`, holding nothing, gives just the flattened results.
pub proof fn lemma_unfold_flattens<T, E>(q: Seq<T>, polled: Seq<Polled<Option<Batch<T, E>>>>)
    ensures
        unfolded(q, polled) == items::<T, E>(q) + flattened(polled),
        q.len() == 0 ==> unfolded(q, polled) == flattened(polled),
    decreases polled.len(), q.len(),
{
    if q.len() > 0 {
        lemma_unfold_flattens(q.drop_first(), polled);
        assert(items::<T, E>(q) =~= seq![item::<T, E>(q[0])] + items::<T, E>(q.drop_first()));
        assert(unfolded(q, polled) =~= items::<T, E>(q) + flattened(polled));
    } else {
        assert(items::<T, E>(q) =~= Seq::empty());
        if polled.len() == 0 {
            assert(unfolded(q, polled) =~= items::<T, E>(q) + flattened(polled));
        } else {
            let rest = polled.drop_first();
            match polled[0] {
                Polled::Ready(Some(Ok(Ok(batch)))) => {
                    let b = batch@;
                    if b.len() > 0 {
                        lemma_unfold_flattens(b.drop_first(), rest);
                        assert(items::<T, E>(b) =~= seq![item::<T, E>(b[0])] + items::<T, E>(
                            b.drop_first(),
                        ));
                    } else {
                        lemma_unfold_flattens(b, rest);
                        assert(items::<T, E>(b) =~= Seq::empty());
                    }
                },
                _ => {
                    lemma_unfold_flattens(Seq::<T>::empty(), rest);
                    assert(items::<T, E>(Seq::<T>::empty()) =~= Seq::empty());
                },
            }
            assert(unfolded(q, polled) =~= items::<T, E>(q) + flattened(polled));
        }
    }
}

impl<T, E> Unfold<T, E> {
    /// The messages received but not yet forwarded, in order.
    pub closed spec fn queue(&self) -> Seq<T> {
        self.messages@
    }

    /// Create a new `Unfold` object, with no message held.
    pub fn new() -> (r: Self)
        ensures
            r.queue() == Seq::<T>::empty(),
    {
        Unfold { messages: Vec::new(), _phantom: PhantomData }
    }

    /// The first step of polling: a held message is forwarded first, the
    /// oldest one; without one the wrapped stream is to be polled.
    pub fn poll_queued(&mut self) -> (r: Step<T, E>)
        ensures
            (r, final(self).queue()) == queued_step::<T, E>(old(self).queue()),
            old(self).queue().len() > 0 ==> (r matches Step::Yield(
                Polled::Ready(Some(Ok(Ok(m)))),
            ) && m == old(self).queue()[0] && final(self).queue() == old(self).queue().drop_first()),
            old(self).queue().len() == 0 ==> (r is PollInner && final(self).queue() == old(self).queue()),
    {
        if self.messages.len() > 0 {
            let m = self.messages.remove(0);
            assert(self.messages@ =~= old(self).messages@.drop_first());
            Step::Yield(Polled::Ready(Some(Ok(Ok(m)))))
        } else {
            Step::PollInner
        }
    }

    /// The step after the wrapped stream was polled, with nothing held:
    /// its errors, its end and its pending state are passed on; a batch
    /// is held, and its first message is forwarded (an empty batch has
    /// the wrapped stream polled again).
    pub fn poll_inner(&mut self, polled: Polled<Option<Batch<T, E>>>) -> (r: Step<T, E>)
        requires
            old(self).queue().len() == 0,
        ensures
            (r, final(self).queue()) == inner_step(polled),
            match polled {
                Polled::Pending => r matches Step::Yield(Polled::Pending) && final(self).queue()
                    == old(self).queue(),
                Polled::Ready(None) => r matches Step::Yield(Polled::Ready(None)) && final(self).queue() == old(self).queue(),
                Polled::Ready(Some(Err(e))) => r matches Step::Yield(
                    Polled::Ready(Some(Err(e2))),
                ) && e2 == e && final(self).queue() == old(self).queue(),
                Polled::Ready(Some(Ok(Err(e)))) => r matches Step::Yield(
                    Polled::Ready(Some(Ok(Err(e2)))),
                ) && e2 == e && final(self).queue() == old(self).queue(),
                Polled::Ready(Some(Ok(Ok(batch)))) => if batch@.len() == 0 {
                    r is PollInner && final(self).queue() == Seq::<T>::empty()
                } else {
                    r matches Step::Yield(Polled::Ready(Some(Ok(Ok(m))))) && m == batch@[0]
                        && final(self).queue() == batch@.drop_first()
                },
            },
    {
        match polled {
            Polled::Pending => Step::Yield(Polled::Pending),
            Polled::Ready(None) => Step::Yield(Polled::Ready(None)),
            Polled::Ready(Some(Err(e))) => Step::Yield(Polled::Ready(Some(Err(e)))),
            Polled::Ready(Some(Ok(Err(e)))) => Step::Yield(Polled::Ready(Some(Ok(Err(e))))),
            Polled::Ready(Some(Ok(Ok(batch)))) => {
                self.messages = batch;
                self.poll_queued()
            },
        }
    }
}

} // verus!
