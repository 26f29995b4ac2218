//! The batching producer: aggregates caller inputs into batches, flushes
//! them to a client, and fans the per-batch outcome back out to each
//! caller through a one-shot slot.
//!
//! A caller's life cycle is split into steps so that a concurrent runtime
//! can drive them around its own locks and timers:
//!
//! - [`BatchProducer::enqueue`] admits an input under the producer's lock
//!   and binds the caller to its batch with a [`ProduceHandle`]: the tag
//!   issued by the aggregator, captured together with the batch it belongs
//!   to. When the aggregator is out of capacity the current batch is
//!   flushed first and admission is retried once; an input that does not
//!   fit into an empty batch fails with [`Error::TooLarge`].
//! - [`BatchProducer::try_complete`] observes the caller's slot without
//!   blocking, as a receiver racing the linger timer would.
//! - [`BatchProducer::await_linger`] is the caller whose linger expired:
//!   if its batch is still pending it flushes, then redeems the tag.
//! - [`BatchProducer::produce`] composes the three into the full call.
//!
//! Dropping a produce call between its steps is not safe: the record may
//! or may not be published, exactly as for any producer whose flush is
//! triggered by a peer.

use crate::client::aggregator::{
    self, Aggregator, RecordAggregatorStatusDeaggregator, StatusDeaggregator, TryPush,
};
use crate::client::broadcast::BroadcastOnce;
use crate::client::error::Error as ClientError;
use crate::record::Record;
use std::sync::Arc;
use vstd::pervasive::unreached;
use vstd::prelude::*;

verus! {

/// Error of one produce call.
#[derive(Debug)]
pub enum Error {
    /// The aggregator failed the calling push; the batch is not poisoned.
    Aggregator(aggregator::Error),
    /// The batch failed; every caller of the batch observes the same
    /// shared error.
    Client(Arc<ClientError>),
    /// The input alone exceeds the aggregator's capacity; never retried.
    TooLarge,
}

/// The client that dispatches one batch, normally the partition client of
/// the topic written to. Implementations send the records as one produce
/// request and return the assigned offsets, one per record, in input
/// order; nothing is assumed of them here, so mocks can take their place.
pub trait ProducerClient: Sized {
    /// Sends one batch.
    fn produce(&mut self, records: Vec<Record>) -> Result<Vec<i64>, ClientError>;
}

/// Offsets of a successful batch together with the deaggregator that
/// splits them per caller.
pub struct AggregatedStatus<A: Aggregator> {
    pub aggregated_status: Vec<i64>,
    pub status_deagg: A::StatusDeaggregator,
}

/// Outcome of one batch, shared by every caller of that batch.
pub struct AggregatedResult<A: Aggregator> {
    pub inner: Result<Arc<AggregatedStatus<A>>, Arc<ClientError>>,
}

/// Relation between a batch outcome and what the caller holding `tag`
/// extracts from it: its own offset-derived status on success, and the
/// batch's shared error otherwise.
pub open spec fn extracts_to_spec<A: Aggregator>(
    result: AggregatedResult<A>,
    tag: A::Tag,
    r: Result<<A::StatusDeaggregator as StatusDeaggregator>::Status, Error>,
) -> bool {
    match result.inner {
        Ok(st) => match st.status_deagg.deaggregate_spec(st.aggregated_status@, tag) {
            Some(s) => r == Ok::<<A::StatusDeaggregator as StatusDeaggregator>::Status, Error>(s),
            None => r matches Err(Error::Aggregator(_)),
        },
        Err(ce) => r matches Err(Error::Client(e)) && e == ce,
    }
}

impl<A: Aggregator> AggregatedResult<A> {
    /// Extracts the status of the caller holding `tag` from this batch's
    /// shared outcome.
    pub fn extract(&self, tag: A::Tag) -> (r: Result<
        <A::StatusDeaggregator as StatusDeaggregator>::Status,
        Error,
    >)
        ensures
            extracts_to_spec(*self, tag, r),
    {
        match &self.inner {
            Ok(status) => match status.status_deagg.deaggregate(
                status.aggregated_status.as_slice(),
                tag,
            ) {
                Ok(s) => Ok(s),
                Err(e) => Err(Error::Aggregator(e)),
            },
            Err(client_error) => Err(Error::Client(Arc::clone(client_error))),
        }
    }
}

/// Builder for [`BatchProducer`].
pub struct BatchProducerBuilder<C: ProducerClient> {
    pub client: C,
    /// Minimum time a partially filled batch waits before it is flushed,
    /// in milliseconds. The timer itself belongs to the runtime driving
    /// the producer; the producer records the configured window.
    pub linger_ms: u64,
}

impl<C: ProducerClient> BatchProducerBuilder<C> {
    /// A builder over the given client, with the default linger of 5 ms.
    pub fn new(client: C) -> (r: Self)
        ensures
            r.client == client,
            r.linger_ms == 5,
    {
        Self::new_with_client(client)
    }

    fn new_with_client(client: C) -> (r: Self)
        ensures
            r.client == client,
            r.linger_ms == 5,
    {
        BatchProducerBuilder { client, linger_ms: 5 }
    }

    /// Sets the minimum amount of time to wait for new data before
    /// flushing the batch.
    pub fn with_linger(self, linger_ms: u64) -> (r: Self)
        ensures
            r.client == self.client,
            r.linger_ms == linger_ms,
    {
        BatchProducerBuilder { linger_ms, ..self }
    }

    /// Builds the producer around an aggregator.
    pub fn build<A: Aggregator>(self, aggregator: A) -> (r: BatchProducer<A, C>)
        ensures
            r.linger_ms == self.linger_ms,
            r.client == self.client,
            r.inner.aggregator == aggregator,
            !r.inner.result_slot.fired(),
            r.completed@.len() == 0,
            r.wf(),
    {
        BatchProducer {
            linger_ms: self.linger_ms,
            client: self.client,
            inner: ProducerInner { aggregator, result_slot: BroadcastOnce::new() },
            completed: Vec::new(),
        }
    }
}

/// State of the producer that a runtime guards with one lock: the
/// aggregator of the current batch and the slot its callers wait on.
pub struct ProducerInner<A: Aggregator> {
    pub result_slot: BroadcastOnce<AggregatedResult<A>>,
    pub aggregator: A,
}

/// Binds a caller to its batch: the batch's index and the tag issued for
/// the caller's input, captured together at admission.
#[derive(Debug)]
pub struct ProduceHandle<T> {
    /// Index of the batch the tag belongs to.
    pub batch_id: usize,
    /// Tag issued by the aggregator for this caller's input.
    pub tag: T,
}

/// Aggregates multiple produce requests into batches using the provided
/// [`Aggregator`], flushing when the aggregator runs out of capacity or
/// when a caller's linger window expires.
pub struct BatchProducer<A: Aggregator, C: ProducerClient> {
    pub linger_ms: u64,
    pub client: C,
    pub inner: ProducerInner<A>,
    /// Slots of the batches flushed so far, in order, each fired with its
    /// batch's shared outcome; a [`ProduceHandle`] indexes into it. They
    /// are kept so that a late caller can still redeem its tag, as the
    /// receivers of a concurrent runtime keep their slot alive.
    pub completed: Vec<BroadcastOnce<AggregatedResult<A>>>,
}

/// The tag admission assigns to `data` against the aggregator state `v0`,
/// if it succeeds: either the first push accepts, or the batch is flushed
/// and the retried push accepts.
pub open spec fn enqueue_tag_spec<A: Aggregator>(v0: A::View, data: A::Input) -> Option<A::Tag> {
    match A::push_view_spec(v0, data).1 {
        Some(TryPush::Aggregated(t)) => Some(t),
        Some(TryPush::NoCapacity(_)) => match A::push_view_spec(
            A::flush_view_spec(v0),
            data,
        ).1 {
            Some(TryPush::Aggregated(t)) => Some(t),
            _ => None,
        },
        None => None,
    }
}

impl<A: Aggregator, C: ProducerClient> BatchProducer<A, C> {
    /// Well-formedness: the current slot has not fired, and every
    /// completed batch's slot has.
    pub open spec fn wf(self) -> bool {
        &&& !self.inner.result_slot.fired()
        &&& forall|i: int|
            0 <= i < self.completed@.len() ==> (#[trigger] self.completed@[i]).fired()
    }

    /// Nothing observable happened: the batches, the current slot, the
    /// client and the aggregator state are all as before.
    pub open spec fn unchanged_spec(pre: Self, post: Self) -> bool {
        &&& post.linger_ms == pre.linger_ms
        &&& post.client == pre.client
        &&& post.completed@ == pre.completed@
        &&& post.inner.result_slot == pre.inner.result_slot
        &&& post.inner.aggregator.view_spec() == pre.inner.aggregator.view_spec()
    }

    /// How one flush changes the producer. An empty batch is skipped: no
    /// request goes out and the slot is kept for the next real flush.
    /// Otherwise the batch's slot moves into `completed`, fired with the
    /// batch's outcome: on success the offsets the client returned paired
    /// with exactly this batch's deaggregator, on failure the shared
    /// error. A fresh slot and a reset aggregator are left behind.
    pub open spec fn flush_transition_spec(pre: Self, post: Self) -> bool {
        let v0 = pre.inner.aggregator.view_spec();
        if A::is_empty_spec(v0) {
            Self::unchanged_spec(pre, post)
        } else {
            &&& post.linger_ms == pre.linger_ms
            &&& post.completed@.len() == pre.completed@.len() + 1
            &&& post.completed@ == pre.completed@.push(post.completed@.last())
            &&& post.completed@.last().fired()
            &&& match post.completed@.last().value_spec() {
                Some(res) => match res.inner {
                    Ok(st) => st.status_deagg == A::flush_deagg_spec(v0),
                    Err(_) => true,
                },
                None => false,
            }
            &&& post.inner.aggregator.view_spec() == A::flush_view_spec(v0)
            &&& !post.inner.result_slot.fired()
        }
    }

    /// The caller holding `handle` was paid out `r` by its batch's slot.
    pub open spec fn redeemed_spec(
        self,
        handle: ProduceHandle<A::Tag>,
        r: Result<<A::StatusDeaggregator as StatusDeaggregator>::Status, Error>,
    ) -> bool {
        &&& handle.batch_id < self.completed@.len()
        &&& match self.completed@[handle.batch_id as int].value_spec() {
            Some(v) => extracts_to_spec::<A>(v, handle.tag, r),
            None => false,
        }
    }

    /// Flushes the current batch (see
    /// [`flush_transition_spec`][Self::flush_transition_spec]): state
    /// replacement happens first, so in a concurrent runtime only the
    /// client call itself runs outside the producer's lock.
    pub fn flush(&mut self)
        requires
            old(self).wf(),
        ensures
            final(self).wf(),
            final(self).linger_ms == old(self).linger_ms,
            Self::flush_transition_spec(*old(self), *final(self)),
    {
        let (records, status_deagg) = self.inner.aggregator.flush();
        proof {
            A::lemma_flush_properties(old(self).inner.aggregator.view_spec());
        }
        if records.len() == 0 {
            return ;
        }
        let mut old_slot = self.inner.result_slot.take();
        let result = self.client.produce(records);
        let aggregated = match result {
            Ok(status) => AggregatedResult {
                inner: Ok(
                    Arc::new(AggregatedStatus { aggregated_status: status, status_deagg }),
                ),
            },
            Err(e) => AggregatedResult { inner: Err(Arc::new(e)) },
        };
        old_slot.broadcast(aggregated);
        self.completed.push(old_slot);
    }

    /// Admits `data` into the current batch and binds the caller to it.
    /// When the aggregator has no capacity, the current batch is flushed
    /// (see [`flush`][Self::flush]) and admission is retried once; an
    /// input that does not fit into an empty batch fails with
    /// [`Error::TooLarge`] and is never retried.
    pub fn enqueue(&mut self, data: A::Input) -> (r: Result<ProduceHandle<A::Tag>, Error>)
        requires
            old(self).wf(),
        ensures
            final(self).wf(),
            final(self).linger_ms == old(self).linger_ms,
            ({
                let v0 = old(self).inner.aggregator.view_spec();
                match r {
                    Ok(handle) => {
                        &&& enqueue_tag_spec::<A>(v0, data) == Some(handle.tag)
                        &&& handle.batch_id == final(self).completed@.len()
                        &&& !A::is_empty_spec(final(self).inner.aggregator.view_spec())
                        &&& !final(self).inner.result_slot.fired()
                        &&& match A::push_view_spec(v0, data).1 {
                            Some(TryPush::Aggregated(_)) => {
                                &&& final(self).inner.aggregator.view_spec()
                                    == A::push_view_spec(v0, data).0
                                &&& final(self).completed@ == old(self).completed@
                                &&& final(self).client == old(self).client
                            },
                            _ => {
                                &&& final(self).inner.aggregator.view_spec()
                                    == A::push_view_spec(A::flush_view_spec(v0), data).0
                                &&& final(self).completed@.len() == old(self).completed@.len()
                                    || final(self).completed@.len() == old(self).completed@.len() + 1
                            },
                        }
                    },
                    Err(Error::TooLarge) => {
                        &&& A::push_view_spec(v0, data).1 matches Some(TryPush::NoCapacity(_))
                        &&& A::push_view_spec(A::flush_view_spec(v0), data).1 matches Some(
                            TryPush::NoCapacity(_),
                        )
                        &&& A::is_empty_spec(v0) ==> Self::unchanged_spec(
                            *old(self),
                            *final(self),
                        )
                    },
                    Err(Error::Aggregator(_)) => match A::push_view_spec(v0, data).1 {
                        None => true,
                        Some(TryPush::NoCapacity(_)) => A::push_view_spec(
                            A::flush_view_spec(v0),
                            data,
                        ).1 is None,
                        Some(TryPush::Aggregated(_)) => false,
                    },
                    Err(Error::Client(_)) => false,
                }
            }),
    {
        let ghost data0 = data;
        let pushed = match self.inner.aggregator.try_push(data) {
            Err(e) => {
                return Err(Error::Aggregator(e));
            },
            Ok(p) => p,
        };
        match pushed {
            TryPush::Aggregated(tag) => {
                proof {
                    A::lemma_push_aggregated_nonempty(
                        old(self).inner.aggregator.view_spec(),
                        data0,
                    );
                }
                Ok(ProduceHandle { batch_id: self.completed.len(), tag })
            },
            TryPush::NoCapacity(data) => {
                proof {
                    A::lemma_push_no_capacity(old(self).inner.aggregator.view_spec(), data0);
                    A::lemma_flush_properties(old(self).inner.aggregator.view_spec());
                }
                self.flush();
                match self.inner.aggregator.try_push(data) {
                    Err(e) => Err(Error::Aggregator(e)),
                    Ok(TryPush::Aggregated(tag)) => {
                        proof {
                            A::lemma_push_aggregated_nonempty(
                                A::flush_view_spec(old(self).inner.aggregator.view_spec()),
                                data0,
                            );
                        }
                        Ok(ProduceHandle { batch_id: self.completed.len(), tag })
                    },
                    Ok(TryPush::NoCapacity(_)) => {
                        proof {
                            A::lemma_push_no_capacity(
                                A::flush_view_spec(old(self).inner.aggregator.view_spec()),
                                data0,
                            );
                        }
                        Err(Error::TooLarge)
                    },
                }
            },
        }
    }

    /// Observes the caller's slot without blocking, as a receiver racing
    /// the linger timer does: the batch's outcome once its flush fired the
    /// slot, `None` while the batch is still pending.
    pub fn try_complete(&self, handle: &ProduceHandle<A::Tag>) -> (r: Option<
        Result<<A::StatusDeaggregator as StatusDeaggregator>::Status, Error>,
    >)
        requires
            self.wf(),
        ensures
            match r {
                Some(res) => self.redeemed_spec(*handle, res),
                None => handle.batch_id >= self.completed@.len(),
            },
    {
        if handle.batch_id < self.completed.len() {
            let slot = &self.completed[handle.batch_id];
            match slot.peek() {
                Some(result) => Some(result.extract(handle.tag)),
                None => unreached(),
            }
        } else {
            None
        }
    }

    /// The caller whose linger window expired: redeems the handle if its
    /// batch has been flushed in the meantime, else flushes now and
    /// redeems. `Ok(None)` means the batch is still pending, which only
    /// happens for a handle of a future batch or when the aggregator
    /// emitted an empty batch for it.
    pub fn await_linger(&mut self, handle: ProduceHandle<A::Tag>) -> (r: Result<
        Option<<A::StatusDeaggregator as StatusDeaggregator>::Status>,
        Error,
    >)
        requires
            old(self).wf(),
        ensures
            final(self).wf(),
            final(self).linger_ms == old(self).linger_ms,
            handle.batch_id < old(self).completed@.len() ==> Self::unchanged_spec(
                *old(self),
                *final(self),
            ),
            handle.batch_id >= old(self).completed@.len() ==> Self::flush_transition_spec(
                *old(self),
                *final(self),
            ),
            match r {
                Ok(Some(s)) => final(self).redeemed_spec(handle, Ok(s)),
                Ok(None) => handle.batch_id >= final(self).completed@.len(),
                Err(e) => final(self).redeemed_spec(handle, Err(e)),
            },
    {
        if handle.batch_id >= self.completed.len() {
            self.flush();
        }
        if handle.batch_id < self.completed.len() {
            let slot = &self.completed[handle.batch_id];
            match slot.peek() {
                Some(result) => match result.extract(handle.tag) {
                    Ok(s) => Ok(Some(s)),
                    Err(e) => Err(e),
                },
                None => unreached(),
            }
        } else {
            Ok(None)
        }
    }

    /// Writes `data` to this producer and returns once its batch has been
    /// dispatched: the caller's own status on success, the aggregator's
    /// error or [`Error::TooLarge`] when admission fails, and the batch's
    /// shared error when the batch fails.
    ///
    /// This is the whole life cycle of one caller run back to back; a
    /// concurrent runtime interleaves the same steps with its linger
    /// timer, so that peers admitted into the same batch share its flush.
    pub fn produce(&mut self, data: A::Input) -> (r: Result<
        <A::StatusDeaggregator as StatusDeaggregator>::Status,
        Error,
    >)
        requires
            old(self).wf(),
        ensures
            final(self).wf(),
            final(self).linger_ms == old(self).linger_ms,
            ({
                let v0 = old(self).inner.aggregator.view_spec();
                match enqueue_tag_spec::<A>(v0, data) {
                    Some(t) => {
                        &&& final(self).completed@.len() == old(self).completed@.len() + 1
                            || final(self).completed@.len() == old(self).completed@.len() + 2
                        &&& final(self).completed@.len() > 0
                        &&& final(self).completed@.last().fired()
                        &&& match final(self).completed@.last().value_spec() {
                            Some(v) => extracts_to_spec::<A>(v, t, r),
                            None => false,
                        }
                        &&& A::is_empty_spec(final(self).inner.aggregator.view_spec())
                    },
                    None => {
                        &&& match A::push_view_spec(v0, data).1 {
                            None => r matches Err(Error::Aggregator(_)),
                            Some(TryPush::NoCapacity(_)) => match A::push_view_spec(
                                A::flush_view_spec(v0),
                                data,
                            ).1 {
                                None => r matches Err(Error::Aggregator(_)),
                                Some(TryPush::NoCapacity(_)) => r matches Err(Error::TooLarge),
                                Some(TryPush::Aggregated(_)) => false,
                            },
                            Some(TryPush::Aggregated(_)) => false,
                        }
                        &&& (r matches Err(Error::TooLarge) && A::is_empty_spec(v0))
                            ==> Self::unchanged_spec(*old(self), *final(self))
                    },
                }
            }),
    {
        let handle = match self.enqueue(data) {
            Ok(h) => h,
            Err(e) => {
                return Err(e);
            },
        };
        proof {
            A::lemma_flush_properties(self.inner.aggregator.view_spec());
        }
        match self.await_linger(handle) {
            Ok(Some(s)) => Ok(s),
            Ok(None) => unreached(),
            Err(e) => Err(e),
        }
    }
}

/// For a successful batch whose offsets are `base + index` in tag order,
/// the caller holding `tag` receives exactly `base + tag`: tags are
/// 0-based within their batch.
pub proof fn lemma_offset_is_base_plus_tag(offsets: Seq<i64>, tag: usize, base: i64)
    requires
        forall|i: int| 0 <= i < offsets.len() ==> offsets[i] == base + i,
        tag < offsets.len(),
    ensures
        RecordAggregatorStatusDeaggregator.deaggregate_spec(offsets, tag) matches Some(s) && s
            == base + tag,
{
}

/// When a batch fails, every caller of the batch observes the same error,
/// whatever its tag: the one shared error the batch's slot fired with.
pub proof fn lemma_error_fanout<A: Aggregator>(
    result: AggregatedResult<A>,
    t1: A::Tag,
    t2: A::Tag,
    r1: Result<<A::StatusDeaggregator as StatusDeaggregator>::Status, Error>,
    r2: Result<<A::StatusDeaggregator as StatusDeaggregator>::Status, Error>,
)
    requires
        result.inner is Err,
        extracts_to_spec::<A>(result, t1, r1),
        extracts_to_spec::<A>(result, t2, r2),
    ensures
        r1 matches Err(Error::Client(e1)) && r2 matches Err(Error::Client(e2)) && e1 == e2,
{
}

/// An input rejected for capacity, followed by the flush of the then
/// empty batch, is a no-op on everything observable: no request goes out,
/// no slot fires, the aggregator is as before.
pub proof fn lemma_no_capacity_then_empty_flush_is_noop<A: Aggregator, C: ProducerClient>(
    pre: BatchProducer<A, C>,
    mid: BatchProducer<A, C>,
    post: BatchProducer<A, C>,
    data: A::Input,
)
    requires
        A::is_empty_spec(pre.inner.aggregator.view_spec()),
        A::push_view_spec(pre.inner.aggregator.view_spec(), data).1 matches Some(
            TryPush::NoCapacity(_),
        ),
        mid.inner.aggregator.view_spec() == A::push_view_spec(
            pre.inner.aggregator.view_spec(),
            data,
        ).0,
        mid.linger_ms == pre.linger_ms,
        mid.client == pre.client,
        mid.completed@ == pre.completed@,
        mid.inner.result_slot == pre.inner.result_slot,
        BatchProducer::<A, C>::flush_transition_spec(mid, post),
    ensures
        BatchProducer::<A, C>::unchanged_spec(pre, post),
{
    A::lemma_push_no_capacity(pre.inner.aggregator.view_spec(), data);
}

} // verus!
