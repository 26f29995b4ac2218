//! End-to-end behaviour of the batching producer against a mock client.

use rskafka::client::aggregator::{
    Aggregator, RecordAggregator, RecordAggregatorStatusDeaggregator, StatusDeaggregator, TryPush,
};
use rskafka::client::broadcast::BroadcastOnce;
use rskafka::client::error::Error as ClientError;
use rskafka::client::producer::{
    AggregatedResult, AggregatedStatus, BatchProducerBuilder, Error, ProducerClient,
};
use rskafka::protocol::ProtocolError;
use rskafka::record::Record;
use std::sync::Arc;

#[derive(Debug)]
struct MockClient {
    error: Option<ProtocolError>,
    batch_sizes: Vec<usize>,
    calls: usize,
}

impl MockClient {
    fn ok() -> Self {
        MockClient { error: None, batch_sizes: Vec::new(), calls: 0 }
    }

    fn failing(error: ProtocolError) -> Self {
        MockClient { error: Some(error), batch_sizes: Vec::new(), calls: 0 }
    }
}

impl ProducerClient for MockClient {
    fn produce(&mut self, records: Vec<Record>) -> Result<Vec<i64>, ClientError> {
        self.calls += 1;
        if let Some(e) = self.error {
            return Err(ClientError::ServerError {
                protocol_error: e,
                error_message: Some("".to_string()),
                context: None,
                payload: None,
                is_virtual: false,
            });
        }
        let offset_base: usize = self.batch_sizes.iter().sum();
        let offsets = (0..records.len()).map(|x| (x + offset_base) as i64).collect();
        self.batch_sizes.push(records.len());
        Ok(offsets)
    }
}

fn record() -> Record {
    Record {
        key: Some(vec![0; 4]),
        value: Some(vec![0; 6]),
        headers: Vec::new(),
        timestamp_ms: 320_000,
    }
}

#[test]
fn test_producer() {
    let record = record();
    let linger: u64 = 100;

    let client = MockClient::ok();
    let aggregator = RecordAggregator::new(record.approximate_size() * 2);
    let mut producer = BatchProducerBuilder::new(client).with_linger(linger).build(aggregator);

    let h1 = producer.enqueue(record.clone()).expect("no producer error");
    let h2 = producer.enqueue(record.clone()).expect("no producer error");
    // The third record does not fit: its enqueue flushes the first batch.
    let h3 = producer.enqueue(record.clone()).expect("no producer error");

    // First two publishes should be ok
    let o1 = producer.try_complete(&h1).expect("Some future left").expect("no producer error");
    assert_eq!(o1, 0);
    let o2 = producer.try_complete(&h2).expect("Some future left").expect("no producer error");
    assert_eq!(o2, 1);

    // Third should linger
    assert!(producer.try_complete(&h3).is_none());
    assert_eq!(producer.client.batch_sizes.as_slice(), &[2]);

    // Should publish third record after linger expires
    let o3 = producer
        .await_linger(h3)
        .expect("no producer error")
        .expect("no timeout");
    assert_eq!(o3, 2);
    assert_eq!(producer.client.batch_sizes.as_slice(), &[2, 1]);
}

#[test]
fn test_producer_error() {
    let record = record();
    let linger: u64 = 5;
    let client = MockClient::failing(ProtocolError::NetworkException);

    let aggregator = RecordAggregator::new(record.approximate_size() * 2);
    let mut producer = BatchProducerBuilder::new(client).with_linger(linger).build(aggregator);

    let h1 = producer.enqueue(record.clone()).unwrap();
    let h2 = producer.enqueue(record.clone()).unwrap();

    let e1 = producer.await_linger(h1).unwrap_err();
    let e2 = producer.await_linger(h2).unwrap_err();

    // Error fan-out: both callers observe the same shared error, and the
    // failed batch was dispatched exactly once.
    match (&e1, &e2) {
        (Error::Client(a), Error::Client(b)) => {
            assert!(Arc::ptr_eq(a, b));
            assert!(matches!(
                **a,
                ClientError::ServerError { protocol_error: ProtocolError::NetworkException, .. }
            ));
        }
        other => panic!("expected shared client errors, got {other:?}"),
    }
    assert_eq!(producer.client.calls, 1);
}

#[test]
fn test_produce_single_caller() {
    // One caller alone: its record lingers and is flushed by its own
    // linger expiry, receiving offset zero.
    let record = record();
    let client = MockClient::ok();
    let aggregator = RecordAggregator::new(record.approximate_size() * 2);
    let mut producer = BatchProducerBuilder::new(client).with_linger(100).build(aggregator);

    let offset = producer.produce(record.clone()).expect("no producer error");
    assert_eq!(offset, 0);
    assert_eq!(producer.client.batch_sizes.as_slice(), &[1]);

    let offset = producer.produce(record).expect("no producer error");
    assert_eq!(offset, 1);
    assert_eq!(producer.client.batch_sizes.as_slice(), &[1, 1]);
}

#[test]
fn test_too_large_input() {
    // An input larger than the whole capacity fails without any network
    // I/O and leaves the aggregator untouched.
    let record = record();
    let client = MockClient::ok();
    let aggregator = RecordAggregator::new(record.approximate_size() / 2);
    let mut producer = BatchProducerBuilder::new(client).with_linger(100).build(aggregator);

    let err = producer.produce(record).unwrap_err();
    assert!(matches!(err, Error::TooLarge));
    assert_eq!(producer.client.calls, 0);
    assert_eq!(producer.inner.aggregator.records.len(), 0);
    assert_eq!(producer.inner.aggregator.total_size, 0);
}

#[test]
fn test_rejected_push_then_empty_flush_is_noop() {
    // A rejected push mutates nothing, and flushing the still empty
    // batch sends nothing and fires no slot.
    let record = record();
    let client = MockClient::ok();
    let aggregator = RecordAggregator::new(record.approximate_size() / 2);
    let mut producer = BatchProducerBuilder::new(client).with_linger(100).build(aggregator);

    let err = producer.enqueue(record).unwrap_err();
    assert!(matches!(err, Error::TooLarge));

    producer.flush();
    assert_eq!(producer.client.calls, 0);
    assert_eq!(producer.completed.len(), 0);
    assert_eq!(producer.inner.aggregator.records.len(), 0);
}

#[test]
fn test_record_aggregator_capacity_and_tags() {
    // Tags are the 0-based indexes of the records within their batch,
    // and a batch never exceeds the configured capacity.
    let record = record();
    let size = record.approximate_size();
    assert_eq!(size, 8 + 4 + 6);

    let mut aggregator = RecordAggregator::new(size * 2);
    let t0 = match aggregator.try_push(record.clone()).unwrap() {
        TryPush::Aggregated(t) => t,
        TryPush::NoCapacity(_) => panic!("first record must fit"),
    };
    let t1 = match aggregator.try_push(record.clone()).unwrap() {
        TryPush::Aggregated(t) => t,
        TryPush::NoCapacity(_) => panic!("second record must fit"),
    };
    assert_eq!((t0, t1), (0, 1));
    assert!(matches!(
        aggregator.try_push(record.clone()).unwrap(),
        TryPush::NoCapacity(_)
    ));
    assert!(aggregator.total_size <= aggregator.max_batch_size);

    let (records, deagg) = aggregator.flush();
    assert_eq!(records.len(), 2);
    assert_eq!(aggregator.records.len(), 0);

    // The deaggregator pays each tag its offset: base + tag.
    let offsets: Vec<i64> = vec![100, 101];
    assert_eq!(deagg.deaggregate(&offsets, t0).unwrap(), 100);
    assert_eq!(deagg.deaggregate(&offsets, t1).unwrap(), 101);
    assert!(deagg.deaggregate(&offsets, 2).is_err());
}

#[test]
fn test_broadcast_once_fires_once_and_peek_is_stable() {
    let mut slot: BroadcastOnce<i64> = BroadcastOnce::new();
    assert!(slot.peek().is_none());
    slot.broadcast(7);
    assert_eq!(slot.peek().copied(), Some(7));
    assert_eq!(slot.peek().copied(), Some(7));

    let old = slot.take();
    assert_eq!(old.peek().copied(), Some(7));
    assert!(slot.peek().is_none());
}

#[test]
fn test_extract_with_stale_tag_is_an_aggregator_error() {
    // A tag interpreted against another batch's offsets cannot be paid
    // out; the caller sees an aggregator error, not a bogus offset.
    let result: AggregatedResult<RecordAggregator> = AggregatedResult {
        inner: Ok(Arc::new(AggregatedStatus {
            aggregated_status: vec![40, 41],
            status_deagg: RecordAggregatorStatusDeaggregator,
        })),
    };
    assert_eq!(result.extract(1).unwrap(), 41);
    assert!(matches!(result.extract(2), Err(Error::Aggregator(_))));
}

#[test]
fn test_builder_defaults() {
    let builder = BatchProducerBuilder::new(MockClient::ok());
    assert_eq!(builder.linger_ms, 5);
    let builder = builder.with_linger(2000);
    assert_eq!(builder.linger_ms, 2000);
}
