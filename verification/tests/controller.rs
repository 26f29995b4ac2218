//! The controller client and the broker connector against scripted
//! brokers.

use rskafka::client::controller::{interpret_create_topics_response, ControllerClient};
use rskafka::client::error::{string_or_na, Error, ServerErrorContext, ServerErrorPayload};
use rskafka::client::retry::ErrorOrThrottle;
use rskafka::connector::{
    validate_metadata, BrokerCache, BrokerConnection, BrokerConnector, BrokerTransport,
    MetadataLookupMode,
};
use rskafka::protocol::{
    CreateTopicResponseTopic, CreateTopicsRequest, CreateTopicsResponse, MetadataResponse,
    MetadataResponseBroker, MetadataResponsePartition, MetadataResponseTopic, ProtocolError,
};

/// A scripted cluster: a list of controller ids to report, one per
/// metadata fetch (the last repeats), and create-topic responses, one
/// per request.
struct MockTransport {
    controllers: Vec<i32>,
    create_script: Vec<Result<CreateTopicsResponse, Error>>,
    fetches: usize,
    creates_to: Vec<i32>,
    connects: Vec<i32>,
    sleeps: Vec<u64>,
}

impl MockTransport {
    fn new(controllers: Vec<i32>, create_script: Vec<Result<CreateTopicsResponse, Error>>) -> Self {
        MockTransport {
            controllers,
            create_script,
            fetches: 0,
            creates_to: Vec::new(),
            connects: Vec::new(),
            sleeps: Vec::new(),
        }
    }

    fn metadata(&self) -> MetadataResponse {
        let i = self.fetches.min(self.controllers.len() - 1);
        MetadataResponse {
            throttle_time_ms: 0,
            brokers: vec![
                MetadataResponseBroker { node_id: 1 },
                MetadataResponseBroker { node_id: 2 },
            ],
            controller_id: Some(self.controllers[i]),
            topics: vec![MetadataResponseTopic {
                name: "existing".to_string(),
                partitions: vec![MetadataResponsePartition { partition_index: 0, leader_id: 2 }],
            }],
        }
    }
}

impl BrokerTransport for MockTransport {
    fn fetch_metadata(
        &mut self,
        _broker: Option<i32>,
        _topics: &Option<Vec<String>>,
    ) -> Result<MetadataResponse, Error> {
        let r = self.metadata();
        self.fetches += 1;
        Ok(r)
    }

    fn connect(&mut self, broker_id: i32) -> Result<(), Error> {
        self.connects.push(broker_id);
        Ok(())
    }

    fn create_topics(
        &mut self,
        broker: BrokerConnection,
        _request: &CreateTopicsRequest,
    ) -> Result<CreateTopicsResponse, Error> {
        self.creates_to.push(broker.broker_id);
        self.create_script.remove(0)
    }

    fn sleep(&mut self, ms: u64) {
        self.sleeps.push(ms);
    }

    fn jitter(&mut self) -> u64 {
        0
    }
}

fn topic_ok(name: &str) -> CreateTopicsResponse {
    CreateTopicsResponse {
        throttle_time_ms: 0,
        topics: vec![CreateTopicResponseTopic {
            name: name.to_string(),
            error: None,
            error_message: None,
        }],
    }
}

fn topic_err(name: &str, error: ProtocolError) -> CreateTopicsResponse {
    CreateTopicsResponse {
        throttle_time_ms: 0,
        topics: vec![CreateTopicResponseTopic {
            name: name.to_string(),
            error: Some(error),
            error_message: Some("from the broker".to_string()),
        }],
    }
}

#[test]
fn test_create_topic_success_refreshes_metadata() {
    let transport = MockTransport::new(vec![1], vec![Ok(topic_ok("new_topic"))]);
    let connector = BrokerConnector::new(transport);
    let mut controller = ControllerClient::new(connector);

    controller.create_topic("new_topic".to_string(), 2, 1, 5_000).unwrap();

    // One fetch to find the controller, one to refresh after success.
    assert_eq!(controller.brokers.transport.fetches, 2);
    assert_eq!(controller.brokers.transport.creates_to.as_slice(), &[1]);
    assert_eq!(controller.brokers.generation, 2);
}

#[test]
fn test_controller_reelection() {
    // The first broker answers it is no longer the controller; the
    // refreshed metadata names another broker, and the second attempt
    // succeeds there.
    let transport = MockTransport::new(
        vec![1, 2],
        vec![Err(server_error(ProtocolError::NotController)), Ok(topic_ok("t"))],
    );
    let connector = BrokerConnector::new(transport);
    let mut controller = ControllerClient::new(connector);

    controller.create_topic("t".to_string(), 1, 1, 5_000).unwrap();

    assert_eq!(controller.brokers.transport.creates_to.as_slice(), &[1, 2]);
    // One backoff sleep between the two attempts.
    assert_eq!(controller.brokers.transport.sleeps.len(), 1);
}

#[test]
fn test_create_topic_already_exists() {
    // Creating a topic that the broker already has surfaces the broker's
    // error in the topic's context, immediately and unretried.
    let transport = MockTransport::new(
        vec![1],
        vec![Ok(topic_ok("twice")), Ok(topic_err("twice", ProtocolError::TopicAlreadyExists))],
    );
    let connector = BrokerConnector::new(transport);
    let mut controller = ControllerClient::new(connector);

    controller.create_topic("twice".to_string(), 1, 1, 5_000).unwrap();
    let e = controller.create_topic("twice".to_string(), 1, 1, 5_000).unwrap_err();

    match e {
        Error::ServerError { protocol_error, context, .. } => {
            assert_eq!(protocol_error, ProtocolError::TopicAlreadyExists);
            match context {
                Some(ServerErrorContext::Topic(t)) => assert_eq!(t, "twice"),
                other => panic!("expected topic context, got {other:?}"),
            }
        }
        other => panic!("expected a server error, got {other:?}"),
    }
    assert!(controller.brokers.transport.sleeps.is_empty());
}

#[test]
fn test_interpret_create_topics_response() {
    match interpret_create_topics_response(CreateTopicsResponse {
        throttle_time_ms: 0,
        topics: vec![],
    }) {
        Err(ErrorOrThrottle::Error(Error::InvalidResponse(m))) => {
            assert_eq!(m, "Expected a single topic in response, got 0");
        }
        other => panic!("expected an invalid response error, got {other:?}"),
    }
    assert!(interpret_create_topics_response(topic_ok("t")).is_ok());
}

#[test]
fn test_metadata_validation_rejects_empty_clusters() {
    struct EmptyTransport;
    impl BrokerTransport for EmptyTransport {
        fn fetch_metadata(
            &mut self,
            _broker: Option<i32>,
            _topics: &Option<Vec<String>>,
        ) -> Result<MetadataResponse, Error> {
            Ok(MetadataResponse {
                throttle_time_ms: 0,
                brokers: vec![],
                controller_id: Some(1),
                topics: vec![],
            })
        }
        fn connect(&mut self, _broker_id: i32) -> Result<(), Error> {
            Ok(())
        }
        fn create_topics(
            &mut self,
            _broker: BrokerConnection,
            _request: &CreateTopicsRequest,
        ) -> Result<CreateTopicsResponse, Error> {
            panic!("no create expected")
        }
        fn sleep(&mut self, _ms: u64) {}
        fn jitter(&mut self) -> u64 {
            0
        }
    }

    let mut connector = BrokerConnector::new(EmptyTransport);
    let e = connector.request_metadata(MetadataLookupMode::ArbitraryBroker, &None).unwrap_err();
    assert!(matches!(e, Error::InvalidResponse(_)));
    assert_eq!(connector.generation, 0);
}

#[test]
fn test_validate_metadata_flattens_topic_leaders() {
    let partition = |partition_index: i32, leader_id: i32| MetadataResponsePartition {
        partition_index,
        leader_id,
    };
    let response = MetadataResponse {
        throttle_time_ms: 0,
        brokers: vec![
            MetadataResponseBroker { node_id: 1 },
            MetadataResponseBroker { node_id: 2 },
        ],
        controller_id: Some(1),
        topics: vec![
            MetadataResponseTopic {
                name: "a".to_string(),
                partitions: vec![partition(0, 1), partition(1, 2)],
            },
            MetadataResponseTopic { name: "b".to_string(), partitions: vec![partition(0, 2)] },
        ],
    };
    let snapshot = validate_metadata(&response, 9).unwrap();
    assert_eq!(snapshot.generation, 9);
    assert_eq!(snapshot.brokers.as_slice(), &[1, 2]);
    let entries: Vec<(String, i32, i32)> = snapshot
        .leaders
        .iter()
        .map(|l| (l.topic.clone(), l.partition, l.leader))
        .collect();
    let expected = vec![
        ("a".to_string(), 0, 1),
        ("a".to_string(), 1, 2),
        ("b".to_string(), 0, 2),
    ];
    assert_eq!(entries, expected);

    // A response that does not name a controller is rejected.
    let headless = MetadataResponse {
        throttle_time_ms: 0,
        brokers: vec![MetadataResponseBroker { node_id: 1 }],
        controller_id: None,
        topics: vec![],
    };
    assert!(matches!(
        validate_metadata(&headless, 1),
        Err(Error::InvalidResponse(_))
    ));
}

#[test]
fn test_metadata_generation_is_monotone() {
    let transport = MockTransport::new(vec![1], vec![]);
    let mut connector = BrokerConnector::new(transport);

    let (_snap, g1) = connector
        .request_metadata(MetadataLookupMode::ArbitraryBroker, &None)
        .unwrap();
    assert_eq!(g1, 1);

    // A cached lookup below the current generation is served from the
    // cache without touching the transport and observes the same
    // generation.
    let fetches = connector.transport.fetches;
    let (snap, g2) = connector
        .request_metadata(MetadataLookupMode::CachedArbitrary(Some(0)), &None)
        .unwrap();
    assert_eq!(g2, g1);
    assert_eq!(connector.transport.fetches, fetches);
    assert_eq!(snap.brokers.as_slice(), &[1, 2]);
    assert_eq!(snap.leaders.len(), 1);
    assert_eq!(snap.leaders[0].topic, "existing");
    assert_eq!(snap.leaders[0].leader, 2);

    // A cached lookup at or above the generation goes to the brokers and
    // publishes a strictly greater one.
    let (_snap, g3) = connector
        .request_metadata(MetadataLookupMode::CachedArbitrary(Some(g2)), &None)
        .unwrap();
    assert!(g3 > g2);

    connector.refresh_metadata().unwrap();
    assert!(connector.generation > g3);
}

#[test]
fn test_connect_unknown_broker() {
    let transport = MockTransport::new(vec![1], vec![]);
    let mut connector = BrokerConnector::new(transport);

    assert!(connector.connect(7).unwrap().is_none());
    let conn = connector.connect(2).unwrap().unwrap();
    assert_eq!(conn.broker_id, 2);
    // A second connect reuses the registered connection.
    connector.connect(2).unwrap().unwrap();
    assert_eq!(connector.transport.connects.as_slice(), &[2]);

    connector.invalidate_connection(2);
    connector.connect(2).unwrap().unwrap();
    assert_eq!(connector.transport.connects.as_slice(), &[2, 2]);
}

#[test]
fn test_controller_cache_get_and_invalidate() {
    let transport = MockTransport::new(vec![1], vec![]);
    let connector = BrokerConnector::new(transport);
    let mut controller = ControllerClient::new(connector);

    let b1 = BrokerCache::get(&mut controller).unwrap();
    assert_eq!(b1.broker_id, 1);
    let fetches = controller.brokers.transport.fetches;

    // The second get is served from the cache without I/O.
    let b2 = BrokerCache::get(&mut controller).unwrap();
    assert_eq!(b2.broker_id, 1);
    assert_eq!(controller.brokers.transport.fetches, fetches);

    BrokerCache::invalidate(&mut controller, "test");
    assert!(controller.current_broker.is_none());
    // Invalidation is idempotent and performs no I/O.
    BrokerCache::invalidate(&mut controller, "test");
    assert_eq!(controller.brokers.transport.fetches, fetches);
}

#[test]
fn test_error_helpers() {
    match Error::exactly_one_topic(5) {
        Error::InvalidResponse(m) => {
            assert_eq!(m, "Expected a single topic in response, got 5");
        }
        other => panic!("unexpected error {other:?}"),
    }
    match Error::exactly_one_partition(12) {
        Error::InvalidResponse(m) => {
            assert_eq!(m, "Expected a single partition in response, got 12");
        }
        other => panic!("unexpected error {other:?}"),
    }
    assert_eq!(string_or_na(&Some("hello".to_string())), "hello");
    assert_eq!(string_or_na(&None), "n/a");
}

fn server_error(protocol_error: ProtocolError) -> Error {
    Error::ServerError {
        protocol_error,
        error_message: None,
        context: None,
        payload: None,
        is_virtual: false,
    }
}

#[test]
fn test_server_error_payload_carries_server_data() {
    // The payload is data the server sent that stays usable despite the
    // error; it rides along unchanged.
    let e = Error::ServerError {
        protocol_error: ProtocolError::NotLeaderForPartition,
        error_message: None,
        context: Some(ServerErrorContext::Partition("t".to_string(), 3)),
        payload: Some(ServerErrorPayload::LeaderForward { broker: 1, new_leader: 2 }),
        is_virtual: false,
    };
    match e {
        Error::ServerError { payload: Some(ServerErrorPayload::LeaderForward { broker, new_leader }), .. } => {
            assert_eq!((broker, new_leader), (1, 2));
        }
        other => panic!("unexpected error {other:?}"),
    }

    let fetch = ServerErrorPayload::FetchState { high_watermark: 10, last_stable_offset: Some(9) };
    assert_eq!(
        fetch,
        ServerErrorPayload::FetchState { high_watermark: 10, last_stable_offset: Some(9) }
    );
}
