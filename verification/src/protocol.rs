//! Protocol-level data: error codes reported by brokers and the plain
//! request/response shapes that the controller path exchanges with them.
//!
//! Byte-level serialization is out of scope; requests and responses are
//! modelled as plain structs that a transport implementation encodes.

use vstd::prelude::*;

verus! {

/// Error code reported by a broker inside an otherwise well-formed response.
///
/// The set is fixed by the broker protocol; each code is either retriable
/// (transient, the retry envelope may try again) or fatal.
#[derive(Clone, Copy, Debug, PartialEq, Eq, Structural)]
pub enum ProtocolError {
    UnknownServerError,
    CorruptMessage,
    UnknownTopicOrPartition,
    LeaderNotAvailable,
    NotLeaderForPartition,
    RequestTimedOut,
    NetworkException,
    CoordinatorLoadInProgress,
    NotController,
    TopicAlreadyExists,
    InvalidTopic,
    PolicyViolation,
    OffsetOutOfRange,
    ThrottlingQuotaExceeded,
}

impl ProtocolError {
    /// The fixed retriable subset of the protocol error codes: transient
    /// conditions (corruption, throttling, leader movement or
    /// unavailability, coordinator loading) that a client may retry.
    pub open spec fn retriable_spec(self) -> bool {
        match self {
            ProtocolError::CorruptMessage => true,
            ProtocolError::UnknownTopicOrPartition => true,
            ProtocolError::LeaderNotAvailable => true,
            ProtocolError::NotLeaderForPartition => true,
            ProtocolError::RequestTimedOut => true,
            ProtocolError::NetworkException => true,
            ProtocolError::CoordinatorLoadInProgress => true,
            ProtocolError::NotController => true,
            ProtocolError::ThrottlingQuotaExceeded => true,
            _ => false,
        }
    }

    /// Whether this error code is in the retriable set.
    pub fn is_retriable(&self) -> (r: bool)
        ensures
            r == self.retriable_spec(),
    {
        match self {
            ProtocolError::CorruptMessage => true,
            ProtocolError::UnknownTopicOrPartition => true,
            ProtocolError::LeaderNotAvailable => true,
            ProtocolError::NotLeaderForPartition => true,
            ProtocolError::RequestTimedOut => true,
            ProtocolError::NetworkException => true,
            ProtocolError::CoordinatorLoadInProgress => true,
            ProtocolError::NotController => true,
            ProtocolError::ThrottlingQuotaExceeded => true,
            _ => false,
        }
    }
}

/// One topic to create inside a [`CreateTopicsRequest`].
#[derive(Debug)]
pub struct CreateTopicRequest {
    pub name: String,
    pub num_partitions: i32,
    pub replication_factor: i16,
}

/// Request sent to the cluster controller to create topics.
#[derive(Debug)]
pub struct CreateTopicsRequest {
    pub topics: Vec<CreateTopicRequest>,
    /// Server-side deadline for the operation, in milliseconds.
    pub timeout_ms: i32,
}

/// Per-topic outcome inside a [`CreateTopicsResponse`].
#[derive(Debug)]
pub struct CreateTopicResponseTopic {
    pub name: String,
    /// `None` on success, otherwise the broker-reported error code.
    pub error: Option<ProtocolError>,
    /// Optional human-readable message accompanying the error.
    pub error_message: Option<String>,
}

/// Response of the controller to a [`CreateTopicsRequest`].
#[derive(Debug)]
pub struct CreateTopicsResponse {
    /// Delay requested by the broker before the next request, in
    /// milliseconds; zero or negative means no throttling.
    pub throttle_time_ms: i32,
    pub topics: Vec<CreateTopicResponseTopic>,
}

/// One broker entry of a [`MetadataResponse`].
#[derive(Debug)]
pub struct MetadataResponseBroker {
    pub node_id: i32,
}

/// One partition entry of a [`MetadataResponseTopic`].
#[derive(Debug)]
pub struct MetadataResponsePartition {
    pub partition_index: i32,
    pub leader_id: i32,
}

/// One topic entry of a [`MetadataResponse`].
#[derive(Debug)]
pub struct MetadataResponseTopic {
    pub name: String,
    pub partitions: Vec<MetadataResponsePartition>,
}

/// Raw cluster metadata as a broker reports it, before validation.
#[derive(Debug)]
pub struct MetadataResponse {
    pub throttle_time_ms: i32,
    pub brokers: Vec<MetadataResponseBroker>,
    /// Broker id of the cluster controller, if the broker reported one.
    pub controller_id: Option<i32>,
    pub topics: Vec<MetadataResponseTopic>,
}

} // verus!
