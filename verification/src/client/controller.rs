//! The controller client: caches a connection to the cluster controller
//! and performs controller-only requests, create-topic first of all,
//! under the retry envelope.

use crate::backoff::{Backoff, BackoffConfig, BackoffError};
use crate::client::error::{Error, ServerErrorContext};
use crate::client::retry::{
    classify, classify_spec, maybe_throttle, ErrorOrThrottle, RetryClassification,
    MAX_RETRY_ATTEMPTS,
};
use crate::connector::{
    BrokerCache, BrokerConnection, BrokerConnector, BrokerTransport, MetadataLookupMode,
};
use crate::protocol::{CreateTopicRequest, CreateTopicsRequest, CreateTopicsResponse};
use vstd::prelude::*;
use vstd::string::StringExecFns;

verus! {

/// Caches at most one connection to the cluster controller and runs
/// controller-only requests through it.
#[derive(Debug)]
pub struct ControllerClient<T: BrokerTransport> {
    pub brokers: BrokerConnector<T>,

    pub backoff_config: BackoffConfig,

    /// Current controller connection, if any.
    pub current_broker: Option<BrokerConnection>,
}

impl<T: BrokerTransport> ControllerClient<T> {
    /// The invariants carried across calls: a consistent metadata cache
    /// and a well-formed backoff configuration.
    pub open spec fn wf(self) -> bool {
        &&& self.brokers.wf()
        &&& self.backoff_config.wf()
    }

    /// A controller client over the given connector, with the default
    /// backoff and nothing cached.
    pub fn new(brokers: BrokerConnector<T>) -> (r: Self)
        ensures
            r.brokers == brokers,
            r.current_broker is None,
            brokers.wf() ==> r.wf(),
    {
        ControllerClient { brokers, backoff_config: Default::default(), current_broker: None }
    }

    /// Retrieves the broker id of the controller from a fresh, uncached
    /// copy of the metadata.
    fn get_controller_id(&mut self) -> (r: Result<i32, Error>)
        ensures
            old(self).wf() ==> final(self).wf(),
            final(self).backoff_config == old(self).backoff_config,
            final(self).current_broker == old(self).current_broker,
            final(self).brokers.generation >= old(self).brokers.generation,
            old(self).wf() ==> (r matches Ok(id) ==> (final(self).brokers.cache matches Some(s)
                && s.controller_id == Some(id))),
    {
        // Request an uncached, fresh copy of the metadata, topics elided.
        let (metadata, _generation) = match self.brokers.request_metadata(
            MetadataLookupMode::ArbitraryBroker,
            &Some(Vec::new()),
        ) {
            Ok(v) => v,
            Err(e) => {
                return Err(e);
            },
        };
        match metadata.controller_id {
            Some(id) => Ok(id),
            None => Err(Error::InvalidResponse(String::from_str("Leader is NULL"))),
        }
    }

    /// Returns the cached controller connection, or resolves one: fresh
    /// metadata names the controller, which is then connected and cached.
    /// A second caller finds the first caller's connection cached.
    pub fn get(&mut self) -> (r: Result<BrokerConnection, Error>)
        ensures
            old(self).wf() ==> final(self).wf(),
            final(self).backoff_config == old(self).backoff_config,
            final(self).brokers.generation >= old(self).brokers.generation,
            (old(self).current_broker matches Some(b) ==> (r == Ok::<BrokerConnection, Error>(b)
                && *final(self) == *old(self))),
            r matches Ok(c) ==> final(self).current_broker == Some(c),
            r is Err ==> final(self).current_broker is None,
            (old(self).wf() && old(self).current_broker is None) ==> (r matches Ok(c) ==> (
            final(self).brokers.cache matches Some(s) && s.controller_id == Some(c.broker_id))),
    {
        if let Some(broker) = &self.current_broker {
            return Ok(*broker);
        }
        let controller_id = match self.get_controller_id() {
            Ok(id) => id,
            Err(e) => {
                return Err(e);
            },
        };
        let broker = match self.brokers.connect(controller_id) {
            Ok(Some(b)) => b,
            Ok(None) => {
                let mut m = String::from_str("Controller ");
                let id_str = crate::client::error::i32_string(controller_id);
                m.append(id_str.as_str());
                m.append(" not found in metadata response");
                return Err(Error::InvalidResponse(m));
            },
            Err(e) => {
                return Err(e);
            },
        };
        self.current_broker = Some(broker);
        Ok(broker)
    }

    /// Drops the cached controller connection: idempotent and free of
    /// I/O. The reason names what an operator would want logged.
    pub fn invalidate(&mut self, reason: &str)
        ensures
            final(self).current_broker is None,
            final(self).brokers == old(self).brokers,
            final(self).backoff_config == old(self).backoff_config,
    {
        let _ = reason;
        self.current_broker = None;
    }

    /// One attempt of create-topic: resolve the controller, send the
    /// request to it, observe a throttle, and interpret the response.
    fn create_topic_attempt(&mut self, request: &CreateTopicsRequest) -> (r: Result<
        (),
        ErrorOrThrottle,
    >)
        ensures
            old(self).wf() ==> final(self).wf(),
            final(self).backoff_config == old(self).backoff_config,
            final(self).brokers.generation >= old(self).brokers.generation,
    {
        let broker = match self.get() {
            Ok(b) => b,
            Err(e) => {
                return Err(ErrorOrThrottle::Error(e));
            },
        };
        let response = match self.brokers.transport.create_topics(broker, request) {
            Ok(resp) => resp,
            Err(e) => {
                return Err(ErrorOrThrottle::Error(e));
            },
        };
        match maybe_throttle(response.throttle_time_ms) {
            Ok(()) => {},
            Err(t) => {
                return Err(t);
            },
        }
        interpret_create_topics_response(response)
    }

    /// Creates a topic through the controller, retrying transient
    /// failures under the configured backoff and invalidating the cached
    /// controller when it proves stale; a returned error is fatal by the
    /// envelope's classification or the retry budget ran out. On success
    /// the metadata is refreshed, so that subsequent lookups observe the
    /// new topic under a fresh generation.
    pub fn create_topic(
        &mut self,
        name: String,
        num_partitions: i32,
        replication_factor: i16,
        timeout_ms: i32,
    ) -> (r: Result<(), Error>)
        requires
            old(self).wf(),
        ensures
            final(self).wf(),
            final(self).brokers.generation >= old(self).brokers.generation,
            r matches Err(e) ==> classify_spec(e) == RetryClassification::Fatal
                || e matches Error::RetryFailed(_),
    {
        let request = CreateTopicsRequest {
            topics: vec![CreateTopicRequest { name, num_partitions, replication_factor }],
            timeout_ms,
        };
        let config = self.backoff_config;
        let mut backoff = Backoff::new(&config);
        let mut attempts_left: u64 = MAX_RETRY_ATTEMPTS;
        loop
            invariant
                backoff.wf(),
                self.wf(),
                self.brokers.generation >= old(self).brokers.generation,
            decreases attempts_left,
        {
            if attempts_left == 0 {
                return Err(Error::RetryFailed(BackoffError::DeadlineExceeded));
            }
            attempts_left = attempts_left - 1;
            let error = match self.create_topic_attempt(&request) {
                Ok(()) => {
                    // The cache now definitely has a new topic to observe.
                    let _ = self.brokers.refresh_metadata();
                    return Ok(());
                },
                Err(ErrorOrThrottle::Throttle(delay_ms)) => {
                    self.brokers.transport.sleep(delay_ms);
                    continue ;
                },
                Err(ErrorOrThrottle::Error(e)) => e,
            };
            match classify(&error) {
                RetryClassification::Invalidate => {
                    let reason = match &error {
                        Error::ServerError { .. } => "controller client: not the controller",
                        _ => "controller client: connection broken",
                    };
                    self.invalidate(reason);
                },
                RetryClassification::Retriable => {},
                RetryClassification::Fatal => {
                    return Err(error);
                },
            }
            let jitter = self.brokers.transport.jitter();
            let sleep_ms = backoff.next_sleep(jitter);
            if backoff.deadline_exceeded() {
                return Err(Error::RetryFailed(BackoffError::DeadlineExceeded));
            }
            self.brokers.transport.sleep(sleep_ms);
        }
    }
}

/// The controller client caches the cluster controller's broker.
impl<T: BrokerTransport> BrokerCache for ControllerClient<T> {
    open spec fn cached_spec(&self) -> Option<BrokerConnection> {
        self.current_broker
    }

    fn get(&mut self) -> (r: Result<BrokerConnection, Error>) {
        ControllerClient::get(self)
    }

    fn invalidate(&mut self, reason: &str) {
        ControllerClient::invalidate(self, reason)
    }
}

/// Interprets the controller's create-topics response: exactly one topic
/// is expected back, and a per-topic error is surfaced as a server error
/// carrying that topic's name as context.
pub fn interpret_create_topics_response(response: CreateTopicsResponse) -> (r: Result<
    (),
    ErrorOrThrottle,
>)
    ensures
        response.topics@.len() != 1 ==> (r matches Err(ErrorOrThrottle::Error(e))
            && e matches Error::InvalidResponse(_)),
        response.topics@.len() == 1 ==> match response.topics@[0].error {
            None => r is Ok,
            Some(protocol_error) => (r matches Err(ErrorOrThrottle::Error(e))
                && e matches Error::ServerError {
                    protocol_error: pe,
                    error_message,
                    context,
                    payload,
                    is_virtual,
                } && pe == protocol_error && error_message == response.topics@[0].error_message
                && (context matches Some(ServerErrorContext::Topic(t)) && t@
                == response.topics@[0].name@) && payload is None && is_virtual == false),
        },
{
    let mut response = response;
    if response.topics.len() != 1 {
        return Err(ErrorOrThrottle::Error(Error::exactly_one_topic(response.topics.len())));
    }
    let topic = response.topics.remove(0);
    match topic.error {
        None => Ok(()),
        Some(protocol_error) => Err(
            ErrorOrThrottle::Error(
                Error::ServerError {
                    protocol_error,
                    error_message: topic.error_message,
                    context: Some(ServerErrorContext::Topic(topic.name)),
                    payload: None,
                    is_virtual: false,
                },
            ),
        ),
    }
}

} // verus!
