//! Aggregation of caller inputs into batches of wire records.
//!
//! An [`Aggregator`] accumulates heterogeneous caller inputs and emits a
//! flushable batch of records together with a [`StatusDeaggregator`] that
//! splits the broker's reply back into per-caller results, keyed by the
//! tags that `try_push` issued.
//!
//! Both traits carry a mathematical model: every implementation names its
//! view type and defines push and flush over it, so the producer built on
//! top is verified against exact behaviour, not just signatures.

use crate::record::Record;
use vstd::prelude::*;
use vstd::string::StringExecFns;

verus! {

/// Error of an aggregator implementation.
#[derive(Debug, PartialEq, Eq)]
pub struct Error {
    pub message: String,
}

/// Outcome of [`Aggregator::try_push`].
#[derive(Debug)]
pub enum TryPush<I, T> {
    /// The input was accepted; the tag redeems the caller's status once
    /// the batch is flushed.
    Aggregated(T),
    /// The batch has no room for the input, which is handed back
    /// untouched.
    NoCapacity(I),
}

/// Splits the offsets returned for a batch back into per-caller status.
pub trait StatusDeaggregator: Sized {
    /// The status handed to one caller.
    type Status;

    /// The tag a caller redeems; issued by the aggregator that produced
    /// this deaggregator. Tags are small handles that callers keep across
    /// the flush, so they are plain copies.
    type Tag: Copy;

    /// What deaggregation yields: a pure function of the offsets and the
    /// tag. `None` means the tag cannot be interpreted against these
    /// offsets.
    spec fn deaggregate_spec(self, offsets: Seq<i64>, tag: Self::Tag) -> Option<Self::Status>;

    /// Extracts the status of the caller holding `tag` from the offsets
    /// the broker returned for the batch.
    fn deaggregate(&self, input: &[i64], tag: Self::Tag) -> (r: Result<Self::Status, Error>)
        ensures
            match self.deaggregate_spec(input@, tag) {
                Some(s) => r == Ok::<Self::Status, Error>(s),
                None => r is Err,
            },
    ;
}

/// Accumulates caller inputs and emits flushable batches of records.
///
/// Tags issued between two flushes are unique and form a dense assignment
/// that the emitted [`StatusDeaggregator`] interprets against the offsets
/// of exactly that batch; a batch is empty exactly when nothing was
/// aggregated into it.
pub trait Aggregator: Sized {
    /// The caller input accepted by this aggregator.
    type Input;

    /// The tag issued for an accepted input.
    type Tag: Copy;

    /// The deaggregator emitted by a flush.
    type StatusDeaggregator: StatusDeaggregator<Tag = Self::Tag>;

    /// The mathematical model of the aggregator state.
    type View;

    /// Lifts the aggregator state into its model.
    spec fn view_spec(&self) -> Self::View;

    /// Model of `try_push`: the state after the call, and `None` where the
    /// call fails. Pushing is deterministic.
    spec fn push_view_spec(pre: Self::View, input: Self::Input) -> (
        Self::View,
        Option<TryPush<Self::Input, Self::Tag>>,
    );

    /// Model of the state a flush leaves behind.
    spec fn flush_view_spec(pre: Self::View) -> Self::View;

    /// The records a flush of the state would emit.
    spec fn flush_records_spec(pre: Self::View) -> Seq<Record>;

    /// The deaggregator a flush of the state would emit.
    spec fn flush_deagg_spec(pre: Self::View) -> Self::StatusDeaggregator;

    /// Whether the state holds nothing.
    spec fn is_empty_spec(v: Self::View) -> bool;

    /// Law: an input rejected for capacity leaves the state untouched and
    /// is handed back unchanged.
    proof fn lemma_push_no_capacity(v: Self::View, input: Self::Input)
        ensures
            ({
                let (post, r) = Self::push_view_spec(v, input);
                r matches Some(TryPush::NoCapacity(d)) ==> post == v && d == input
            }),
    ;

    /// Law: an accepted input leaves the state nonempty.
    proof fn lemma_push_aggregated_nonempty(v: Self::View, input: Self::Input)
        ensures
            ({
                let (post, r) = Self::push_view_spec(v, input);
                r matches Some(TryPush::Aggregated(t)) ==> !Self::is_empty_spec(post)
            }),
    ;

    /// Laws of flushing: it resets the state, it emits records exactly
    /// when the state was nonempty, and on an empty state it is a no-op.
    proof fn lemma_flush_properties(v: Self::View)
        ensures
            Self::is_empty_spec(Self::flush_view_spec(v)),
            Self::flush_records_spec(v).len() == 0 <==> Self::is_empty_spec(v),
            Self::is_empty_spec(v) ==> Self::flush_view_spec(v) == v,
    ;

    /// Tries to aggregate `record`; on `NoCapacity` nothing is mutated and
    /// the input is handed back.
    fn try_push(&mut self, record: Self::Input) -> (r: Result<
        TryPush<Self::Input, Self::Tag>,
        Error,
    >)
        ensures
            ({
                let (post, outcome) = Self::push_view_spec(old(self).view_spec(), record);
                &&& final(self).view_spec() == post
                &&& match outcome {
                    Some(tp) => r == Ok::<TryPush<Self::Input, Self::Tag>, Error>(tp),
                    None => r is Err,
                }
            }),
    ;

    /// Flushes the accumulated inputs into a batch of records plus the
    /// deaggregator for that batch, resetting the internal state.
    fn flush(&mut self) -> (r: (Vec<Record>, Self::StatusDeaggregator))
        ensures
            r.0@ == Self::flush_records_spec(old(self).view_spec()),
            r.1 == Self::flush_deagg_spec(old(self).view_spec()),
            final(self).view_spec() == Self::flush_view_spec(old(self).view_spec()),
    ;
}

/// Serialized size of one record, as the aggregator accounts it.
pub open spec fn record_size_spec(r: Record) -> nat {
    crate::record::saturating_add_spec(r.approximate_size_spec(), 0)
}

/// Model of a [`RecordAggregator`]: its capacity, the records of the
/// current batch, and their accounted total size.
pub struct RecordAggregatorView {
    pub max_batch_size: nat,
    pub records: Seq<Record>,
    pub total_size: nat,
}

/// The canonical aggregator: accumulates [`Record`]s up to a byte
/// capacity, issues the record's index in the batch as the tag, and hands
/// each caller the offset at its index.
#[derive(Debug)]
pub struct RecordAggregator {
    /// Capacity of one batch, in accounted bytes.
    pub max_batch_size: usize,
    /// Records of the current batch.
    pub records: Vec<Record>,
    /// Accounted total size of `records`; never exceeds the capacity.
    pub total_size: usize,
}

impl RecordAggregator {
    /// Sum of the accounted sizes of a batch.
    pub open spec fn batch_size_spec(records: Seq<Record>) -> nat
        decreases records.len(),
    {
        if records.len() == 0 {
            0
        } else {
            Self::batch_size_spec(records.drop_last()) + record_size_spec(records.last())
        }
    }

    /// The accounting invariant: the running total is the batch's size and
    /// stays within the capacity.
    pub open spec fn wf(self) -> bool {
        &&& self.total_size == Self::batch_size_spec(self.records@)
        &&& self.total_size <= self.max_batch_size
    }

    /// A fresh, empty aggregator with the given byte capacity.
    pub fn new(max_batch_size: usize) -> (r: Self)
        ensures
            r.max_batch_size == max_batch_size,
            r.records@.len() == 0,
            r.total_size == 0,
            r.wf(),
    {
        RecordAggregator { max_batch_size, records: Vec::new(), total_size: 0 }
    }
}

/// Deaggregator of a [`RecordAggregator`] batch: the tag is the record's
/// index, and the status is the offset assigned at that index.
#[derive(Clone, Copy, Debug, PartialEq, Eq, Structural)]
pub struct RecordAggregatorStatusDeaggregator;

impl StatusDeaggregator for RecordAggregatorStatusDeaggregator {
    type Status = i64;

    type Tag = usize;

    open spec fn deaggregate_spec(self, offsets: Seq<i64>, tag: usize) -> Option<i64> {
        if tag < offsets.len() {
            Some(offsets[tag as int])
        } else {
            None
        }
    }

    fn deaggregate(&self, input: &[i64], tag: usize) -> (r: Result<i64, Error>) {
        if tag < input.len() {
            Ok(input[tag])
        } else {
            Err(Error { message: String::from_str("tag not found in offsets of this batch") })
        }
    }
}

impl Aggregator for RecordAggregator {
    type Input = Record;

    type Tag = usize;

    type StatusDeaggregator = RecordAggregatorStatusDeaggregator;

    type View = RecordAggregatorView;

    open spec fn view_spec(&self) -> RecordAggregatorView {
        RecordAggregatorView {
            max_batch_size: self.max_batch_size as nat,
            records: self.records@,
            total_size: self.total_size as nat,
        }
    }

    open spec fn push_view_spec(pre: RecordAggregatorView, input: Record) -> (
        RecordAggregatorView,
        Option<TryPush<Record, usize>>,
    ) {
        let size = record_size_spec(input);
        if size > pre.max_batch_size || pre.total_size > pre.max_batch_size - size {
            (pre, Some(TryPush::NoCapacity(input)))
        } else {
            (
                RecordAggregatorView {
                    max_batch_size: pre.max_batch_size,
                    records: pre.records.push(input),
                    total_size: pre.total_size + size,
                },
                Some(TryPush::Aggregated(pre.records.len() as usize)),
            )
        }
    }

    open spec fn flush_view_spec(pre: RecordAggregatorView) -> RecordAggregatorView {
        if pre.records.len() == 0 {
            pre
        } else {
            RecordAggregatorView {
                max_batch_size: pre.max_batch_size,
                records: Seq::empty(),
                total_size: 0,
            }
        }
    }

    open spec fn flush_records_spec(pre: RecordAggregatorView) -> Seq<Record> {
        pre.records
    }

    open spec fn flush_deagg_spec(pre: RecordAggregatorView) -> RecordAggregatorStatusDeaggregator {
        RecordAggregatorStatusDeaggregator
    }

    open spec fn is_empty_spec(v: RecordAggregatorView) -> bool {
        v.records.len() == 0
    }

    proof fn lemma_push_no_capacity(v: RecordAggregatorView, input: Record) {
    }

    proof fn lemma_push_aggregated_nonempty(v: RecordAggregatorView, input: Record) {
    }

    proof fn lemma_flush_properties(v: RecordAggregatorView) {
        if v.records.len() == 0 {
            assert(v.records =~= Seq::<Record>::empty());
        }
    }

    fn try_push(&mut self, record: Record) -> (r: Result<TryPush<Record, usize>, Error>) {
        let size = record.approximate_size();
        if size > self.max_batch_size || self.total_size > self.max_batch_size - size {
            Ok(TryPush::NoCapacity(record))
        } else {
            let tag = self.records.len();
            self.total_size = self.total_size + size;
            self.records.push(record);
            Ok(TryPush::Aggregated(tag))
        }
    }

    fn flush(&mut self) -> (r: (Vec<Record>, RecordAggregatorStatusDeaggregator)) {
        if self.records.len() == 0 {
            let records: Vec<Record> = Vec::new();
            proof {
                assert(records@ =~= self.records@);
            }
            return (records, RecordAggregatorStatusDeaggregator);
        }
        let mut records: Vec<Record> = Vec::new();
        core::mem::swap(&mut records, &mut self.records);
        self.total_size = 0;
        (records, RecordAggregatorStatusDeaggregator)
    }
}

/// A push that stays within capacity preserves the accounting invariant;
/// in particular the accepted batch never exceeds the capacity.
pub proof fn lemma_record_aggregator_push_keeps_wf(agg: RecordAggregator, input: Record)
    requires
        agg.wf(),
    ensures
        ({
            let (post, r) = RecordAggregator::push_view_spec(agg.view_spec(), input);
            &&& post.total_size == RecordAggregator::batch_size_spec(post.records)
            &&& post.total_size <= post.max_batch_size
        }),
{
    let v = agg.view_spec();
    let size = record_size_spec(input);
    if !(size > v.max_batch_size || v.total_size > v.max_batch_size - size) {
        assert(v.records.push(input).drop_last() =~= v.records);
    }
}

/// A flush preserves the accounting invariant: the batch left behind is
/// empty and accounts zero bytes. Together with
/// [`lemma_record_aggregator_push_keeps_wf`] and the state
/// [`RecordAggregator::new`] establishes, every state a producer drives
/// the aggregator through satisfies [`RecordAggregator::wf`].
pub proof fn lemma_record_aggregator_flush_keeps_wf(agg: RecordAggregator)
    requires
        agg.wf(),
    ensures
        ({
            let post = RecordAggregator::flush_view_spec(agg.view_spec());
            &&& post.total_size == RecordAggregator::batch_size_spec(post.records)
            &&& post.total_size <= post.max_batch_size
        }),
{
}

/// The total accounted bytes flushed in one batch never exceed the
/// aggregator's capacity.
pub proof fn lemma_record_aggregator_batch_within_capacity(agg: RecordAggregator)
    requires
        agg.wf(),
    ensures
        RecordAggregator::batch_size_spec(RecordAggregator::flush_records_spec(agg.view_spec()))
            <= agg.max_batch_size,
{
}

} // verus!
