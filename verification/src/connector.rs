//! The broker connector: the registry of live broker connections and the
//! versioned metadata cache with its monotone generation counter.
//!
//! The network work itself is behind [`BrokerTransport`], which callers
//! implement: over a real messenger in an application, with scripted
//! brokers in tests. The connector owns validation of raw metadata, the
//! cache and its generation, and the bookkeeping of which broker ids hold
//! a live connection.

use crate::client::error::Error;
use crate::protocol::{
    CreateTopicsRequest, CreateTopicsResponse, MetadataResponse, MetadataResponsePartition,
    MetadataResponseTopic,
};
use vstd::prelude::*;
use vstd::string::StringExecFns;

verus! {

/// A live connection to one broker, keyed by its broker id; the transport
/// owns the canonical handle.
#[derive(Clone, Copy, Debug, PartialEq, Eq, Structural)]
pub struct BrokerConnection {
    pub broker_id: i32,
}

/// How metadata is looked up.
#[derive(Clone, Copy, Debug)]
pub enum MetadataLookupMode {
    /// Fresh lookup on an arbitrary broker.
    ArbitraryBroker,
    /// Fresh lookup on the given broker.
    SpecificBroker(i32),
    /// The cached snapshot, if one with a generation above the given one
    /// is held; otherwise a fresh lookup on an arbitrary broker.
    CachedArbitrary(Option<u64>),
}

/// The leader of one (topic, partition).
#[derive(Debug)]
pub struct PartitionLeader {
    pub topic: String,
    pub partition: i32,
    pub leader: i32,
}

/// Versioned, validated view of the cluster topology.
#[derive(Debug)]
pub struct MetadataSnapshot {
    /// Ids of the known brokers; a validated snapshot has at least one.
    pub brokers: Vec<i32>,
    /// Broker id of the cluster controller; a validated snapshot has one.
    pub controller_id: Option<i32>,
    /// Leader of each known (topic, partition).
    pub leaders: Vec<PartitionLeader>,
    /// Monotone version stamp of this snapshot.
    pub generation: u64,
}

/// The mathematical content of a leader entry.
pub open spec fn leader_view_spec(l: PartitionLeader) -> (Seq<char>, i32, i32) {
    (l.topic@, l.partition, l.leader)
}

/// The mathematical content of a leader table.
pub open spec fn leaders_view_spec(ls: Seq<PartitionLeader>) -> Seq<(Seq<char>, i32, i32)> {
    ls.map_values(|l: PartitionLeader| leader_view_spec(l))
}

/// The leader entries one topic of a raw response contributes.
pub open spec fn topic_leaders_spec(ps: Seq<MetadataResponsePartition>, name: Seq<char>) -> Seq<
    (Seq<char>, i32, i32),
>
    decreases ps.len(),
{
    if ps.len() == 0 {
        Seq::empty()
    } else {
        topic_leaders_spec(ps.drop_last(), name).push(
            (name, ps.last().partition_index, ps.last().leader_id),
        )
    }
}

/// The leader entries of a whole raw response, topic by topic.
pub open spec fn response_leaders_spec(ts: Seq<MetadataResponseTopic>) -> Seq<
    (Seq<char>, i32, i32),
>
    decreases ts.len(),
{
    if ts.len() == 0 {
        Seq::empty()
    } else {
        response_leaders_spec(ts.drop_last()) + topic_leaders_spec(
            ts.last().partitions@,
            ts.last().name@,
        )
    }
}

impl MetadataSnapshot {
    /// A validated snapshot: at least one broker and a controller.
    pub open spec fn wf(self) -> bool {
        &&& self.brokers@.len() > 0
        &&& self.controller_id is Some
    }

    /// Two snapshots with the same mathematical content.
    pub open spec fn view_eq_spec(a: MetadataSnapshot, b: MetadataSnapshot) -> bool {
        &&& a.brokers@ == b.brokers@
        &&& a.controller_id == b.controller_id
        &&& leaders_view_spec(a.leaders@) == leaders_view_spec(b.leaders@)
        &&& a.generation == b.generation
    }
}

impl Clone for MetadataSnapshot {
    /// A copy with the same mathematical content.
    fn clone(&self) -> (r: Self)
        ensures
            MetadataSnapshot::view_eq_spec(*self, r),
            r.wf() == self.wf(),
    {
        let mut brokers: Vec<i32> = Vec::new();
        let mut i: usize = 0;
        while i < self.brokers.len()
            invariant
                i <= self.brokers@.len(),
                brokers@ == self.brokers@.take(i as int),
            decreases self.brokers@.len() - i,
        {
            brokers.push(self.brokers[i]);
            proof {
                assert(self.brokers@.take(i + 1) =~= self.brokers@.take(i as int).push(
                    self.brokers@[i as int],
                ));
            }
            i += 1;
        }
        proof {
            assert(self.brokers@.take(self.brokers@.len() as int) =~= self.brokers@);
        }

        let mut leaders: Vec<PartitionLeader> = Vec::new();
        let mut j: usize = 0;
        while j < self.leaders.len()
            invariant
                j <= self.leaders@.len(),
                leaders_view_spec(leaders@) == leaders_view_spec(self.leaders@.take(j as int)),
            decreases self.leaders@.len() - j,
        {
            let l = &self.leaders[j];
            let copy = PartitionLeader {
                topic: l.topic.clone(),
                partition: l.partition,
                leader: l.leader,
            };
            proof {
                assert(leaders_view_spec(leaders@.push(copy)) =~= leaders_view_spec(
                    leaders@,
                ).push(leader_view_spec(copy)));
                assert(leaders_view_spec(self.leaders@.take(j + 1)) =~= leaders_view_spec(
                    self.leaders@.take(j as int),
                ).push(leader_view_spec(self.leaders@[j as int])));
            }
            leaders.push(copy);
            j += 1;
        }
        proof {
            assert(self.leaders@.take(self.leaders@.len() as int) =~= self.leaders@);
        }

        MetadataSnapshot {
            brokers,
            controller_id: self.controller_id,
            leaders,
            generation: self.generation,
        }
    }
}

/// Validates a raw metadata response into a snapshot stamped with
/// `generation`: a response with no brokers or without a controller is
/// rejected as invalid.
pub fn validate_metadata(response: &MetadataResponse, generation: u64) -> (r: Result<
    MetadataSnapshot,
    Error,
>)
    ensures
        match r {
            Ok(s) => {
                &&& response.brokers@.len() > 0
                &&& response.controller_id is Some
                &&& s.wf()
                &&& s.generation == generation
                &&& s.brokers@ == response.brokers@.map_values(
                    |b: crate::protocol::MetadataResponseBroker| b.node_id,
                )
                &&& s.controller_id == response.controller_id
                &&& leaders_view_spec(s.leaders@) == response_leaders_spec(response.topics@)
            },
            Err(e) => {
                &&& response.brokers@.len() == 0 || response.controller_id is None
                &&& e matches Error::InvalidResponse(_)
            },
        },
{
    if response.brokers.len() == 0 {
        return Err(
            Error::InvalidResponse(String::from_str("Metadata response holds no brokers")),
        );
    }
    let controller_id = match response.controller_id {
        Some(id) => Some(id),
        None => {
            return Err(Error::InvalidResponse(String::from_str("Leader is NULL")));
        },
    };

    let mut brokers: Vec<i32> = Vec::new();
    let mut i: usize = 0;
    while i < response.brokers.len()
        invariant
            i <= response.brokers@.len(),
            brokers@ == response.brokers@.take(i as int).map_values(
                |b: crate::protocol::MetadataResponseBroker| b.node_id,
            ),
        decreases response.brokers@.len() - i,
    {
        brokers.push(response.brokers[i].node_id);
        proof {
            assert(response.brokers@.take(i + 1).map_values(
                |b: crate::protocol::MetadataResponseBroker| b.node_id,
            ) =~= response.brokers@.take(i as int).map_values(
                |b: crate::protocol::MetadataResponseBroker| b.node_id,
            ).push(response.brokers@[i as int].node_id));
        }
        i += 1;
    }
    proof {
        assert(response.brokers@.take(response.brokers@.len() as int) =~= response.brokers@);
    }

    let mut leaders: Vec<PartitionLeader> = Vec::new();
    let mut ti: usize = 0;
    while ti < response.topics.len()
        invariant
            ti <= response.topics@.len(),
            leaders_view_spec(leaders@) == response_leaders_spec(response.topics@.take(ti as int)),
        decreases response.topics@.len() - ti,
    {
        let topic = &response.topics[ti];
        let mut pi: usize = 0;
        while pi < topic.partitions.len()
            invariant
                pi <= topic.partitions@.len(),
                topic == &response.topics[ti as int],
                ti < response.topics@.len(),
                leaders_view_spec(leaders@) == response_leaders_spec(
                    response.topics@.take(ti as int),
                ) + topic_leaders_spec(topic.partitions@.take(pi as int), topic.name@),
            decreases topic.partitions@.len() - pi,
        {
            let p = &topic.partitions[pi];
            let entry = PartitionLeader {
                topic: topic.name.clone(),
                partition: p.partition_index,
                leader: p.leader_id,
            };
            proof {
                assert(leaders_view_spec(leaders@.push(entry)) =~= leaders_view_spec(
                    leaders@,
                ).push(leader_view_spec(entry)));
                assert(topic.partitions@.take(pi + 1).drop_last() =~= topic.partitions@.take(
                    pi as int,
                ));
                assert(topic_leaders_spec(topic.partitions@.take(pi + 1), topic.name@)
                    =~= topic_leaders_spec(topic.partitions@.take(pi as int), topic.name@).push(
                    (topic.name@, p.partition_index, p.leader_id),
                ));
            }
            leaders.push(entry);
            pi += 1;
        }
        proof {
            assert(topic.partitions@.take(topic.partitions@.len() as int) =~= topic.partitions@);
            assert(response.topics@.take(ti + 1).drop_last() =~= response.topics@.take(ti as int));
            assert(response_leaders_spec(response.topics@.take(ti + 1)) =~= response_leaders_spec(
                response.topics@.take(ti as int),
            ) + topic_leaders_spec(topic.partitions@, topic.name@));
        }
        ti += 1;
    }
    proof {
        assert(response.topics@.take(response.topics@.len() as int) =~= response.topics@);
    }

    Ok(MetadataSnapshot { brokers, controller_id, leaders, generation })
}

/// The messenger the connector drives. Implementations do the network
/// work — fetching raw metadata, opening connections (retrying across the
/// bootstrap list in whatever order they choose), sending requests — and
/// supply the runtime services of sleeping and jitter. Nothing is assumed
/// of them here.
pub trait BrokerTransport: Sized {
    /// Fetches cluster metadata from the given broker, or from an
    /// arbitrary one of the bootstrap set; `topics` restricts the
    /// response to the named topics, `Some` of an empty list asks for
    /// none and `None` for all.
    fn fetch_metadata(&mut self, broker: Option<i32>, topics: &Option<Vec<String>>) -> Result<
        MetadataResponse,
        Error,
    >;

    /// Establishes a connection to the given broker id; `Err` when the
    /// whole bootstrap list failed.
    fn connect(&mut self, broker_id: i32) -> Result<(), Error>;

    /// Sends a create-topics request to the given broker.
    fn create_topics(&mut self, broker: BrokerConnection, request: &CreateTopicsRequest) -> Result<
        CreateTopicsResponse,
        Error,
    >;

    /// Sleeps for `ms` milliseconds.
    fn sleep(&mut self, ms: u64);

    /// Draws a fresh jitter value for the backoff schedule.
    fn jitter(&mut self) -> u64;
}

/// Registry of live broker connections plus the metadata cache, guarded
/// by one lock when shared across tasks.
#[derive(Debug)]
pub struct BrokerConnector<T: BrokerTransport> {
    pub transport: T,
    /// Cached snapshot, if any; its stamp is `generation`.
    pub cache: Option<MetadataSnapshot>,
    /// Generation of the last published snapshot; zero before the first.
    pub generation: u64,
    /// Broker ids currently holding a live connection.
    pub connected: Vec<i32>,
}

impl<T: BrokerTransport> BrokerConnector<T> {
    /// The cache invariant: a cached snapshot is validated and carries
    /// the connector's current generation.
    pub open spec fn wf(self) -> bool {
        match self.cache {
            Some(s) => s.generation == self.generation && s.wf(),
            None => true,
        }
    }

    /// A connector over the given transport, with nothing cached.
    pub fn new(transport: T) -> (r: Self)
        ensures
            r.transport == transport,
            r.cache is None,
            r.generation == 0,
            r.connected@.len() == 0,
            r.wf(),
    {
        BrokerConnector { transport, cache: None, generation: 0, connected: Vec::new() }
    }

    /// Fetches fresh metadata (from `target`, or an arbitrary broker),
    /// validates it, and publishes it under the next generation.
    fn fresh_metadata(&mut self, target: Option<i32>, topics: &Option<Vec<String>>) -> (r: Result<
        (MetadataSnapshot, u64),
        Error,
    >)
        ensures
            final(self).generation >= old(self).generation,
            final(self).connected@ == old(self).connected@,
            old(self).wf() ==> final(self).wf(),
            match r {
                Ok((snap, gen)) => {
                    &&& gen == final(self).generation
                    &&& final(self).generation == old(self).generation + 1
                    &&& snap.wf()
                    &&& snap.generation == gen
                    &&& final(self).cache matches Some(c) && MetadataSnapshot::view_eq_spec(
                        c,
                        snap,
                    )
                },
                Err(_) => {
                    &&& final(self).generation == old(self).generation
                    &&& final(self).cache == old(self).cache
                },
            },
    {
        let response = match self.transport.fetch_metadata(target, topics) {
            Ok(resp) => resp,
            Err(e) => {
                return Err(e);
            },
        };
        if self.generation == u64::MAX {
            return Err(
                Error::InvalidResponse(
                    String::from_str("metadata generation counter exhausted"),
                ),
            );
        }
        let next_generation = self.generation + 1;
        let snapshot = match validate_metadata(&response, next_generation) {
            Ok(s) => s,
            Err(e) => {
                return Err(e);
            },
        };
        let published = snapshot.clone();
        self.cache = Some(published);
        self.generation = next_generation;
        Ok((snapshot, next_generation))
    }

    /// Looks up metadata in the requested mode and returns the snapshot
    /// together with its generation. The generation a caller observes
    /// equals the connector's own after the call, and the connector's
    /// generation never decreases: observations are monotone.
    pub fn request_metadata(
        &mut self,
        mode: MetadataLookupMode,
        topics: &Option<Vec<String>>,
    ) -> (r: Result<(MetadataSnapshot, u64), Error>)
        ensures
            final(self).generation >= old(self).generation,
            final(self).connected@ == old(self).connected@,
            old(self).wf() ==> final(self).wf(),
            old(self).wf() ==> (r matches Ok((snap, gen)) ==> gen == final(self).generation),
            old(self).wf() ==> (r matches Ok((snap, gen)) ==> snap.wf() && snap.generation == gen),
            old(self).wf() ==> (r matches Ok((snap, gen)) ==> (final(self).cache matches Some(c)
                && MetadataSnapshot::view_eq_spec(c, snap))),
            ({
                match mode {
                    MetadataLookupMode::CachedArbitrary(Some(g)) => match old(self).cache {
                        Some(c) => c.generation > g ==> (*final(self) == *old(self) && (
                        r matches Ok((snap, gen)) && MetadataSnapshot::view_eq_spec(snap, c) && gen
                            == c.generation)),
                        None => true,
                    },
                    _ => true,
                }
            }),
    {
        let use_cache = match &mode {
            MetadataLookupMode::CachedArbitrary(Some(g)) => match &self.cache {
                Some(c) => c.generation > *g,
                None => false,
            },
            MetadataLookupMode::CachedArbitrary(None) => false,
            _ => false,
        };
        if use_cache {
            if let Some(c) = &self.cache {
                let snap = c.clone();
                let gen = snap.generation;
                return Ok((snap, gen));
            }
            return unreached();
        }
        let target = match &mode {
            MetadataLookupMode::SpecificBroker(id) => Some(*id),
            _ => None,
        };
        self.fresh_metadata(target, topics)
    }

    /// Forces a fresh metadata fetch and publishes a new generation.
    pub fn refresh_metadata(&mut self) -> (r: Result<(), Error>)
        ensures
            final(self).generation >= old(self).generation,
            final(self).connected@ == old(self).connected@,
            old(self).wf() ==> final(self).wf(),
            r is Ok ==> final(self).generation == old(self).generation + 1 && final(self).cache is Some,
    {
        match self.fresh_metadata(None, &None) {
            Ok(_) => Ok(()),
            Err(e) => Err(e),
        }
    }

    /// Opens (or reuses) a connection to `broker_id`: `None` when the id
    /// is absent from the latest metadata, fetching metadata first if
    /// none is cached yet.
    pub fn connect(&mut self, broker_id: i32) -> (r: Result<Option<BrokerConnection>, Error>)
        ensures
            final(self).generation >= old(self).generation,
            old(self).wf() ==> final(self).wf(),
            old(self).cache is Some ==> final(self).cache == old(self).cache && final(self).generation == old(self).generation,
            match r {
                Ok(Some(c)) => {
                    &&& c.broker_id == broker_id
                    &&& final(self).connected@.contains(broker_id)
                    &&& final(self).cache matches Some(s) && s.brokers@.contains(broker_id)
                },
                Ok(None) => {
                    &&& final(self).cache matches Some(s) && !s.brokers@.contains(broker_id)
                    &&& final(self).connected@ == old(self).connected@
                },
                Err(_) => true,
            },
    {
        if self.cache.is_none() {
            match self.fresh_metadata(None, &None) {
                Ok(_) => {},
                Err(e) => {
                    return Err(e);
                },
            }
        }
        let known = match &self.cache {
            Some(s) => contains_id(&s.brokers, broker_id),
            None => {
                return unreached();
            },
        };
        if !known {
            return Ok(None);
        }
        if contains_id(&self.connected, broker_id) {
            return Ok(Some(BrokerConnection { broker_id }));
        }
        match self.transport.connect(broker_id) {
            Ok(()) => {},
            Err(e) => {
                return Err(e);
            },
        }
        self.connected.push(broker_id);
        proof {
            assert(self.connected@.last() == broker_id);
        }
        Ok(Some(BrokerConnection { broker_id }))
    }

    /// Drops the cached connection of `broker_id`; the metadata cache is
    /// untouched and no I/O happens. Dropping twice is dropping once.
    pub fn invalidate_connection(&mut self, broker_id: i32)
        ensures
            final(self).connected@ == old(self).connected@.filter(|x: i32| x != broker_id),
            final(self).cache == old(self).cache,
            final(self).generation == old(self).generation,
            final(self).transport == old(self).transport,
    {
        let mut kept: Vec<i32> = Vec::new();
        let mut i: usize = 0;
        while i < self.connected.len()
            invariant
                i <= self.connected@.len(),
                kept@ == self.connected@.take(i as int).filter(|id: i32| id != broker_id),
            decreases self.connected@.len() - i,
        {
            let id = self.connected[i];
            proof {
                assert(self.connected@.take(i + 1) =~= self.connected@.take(i as int).push(
                    self.connected@[i as int],
                ));
                self.connected@.take(i as int).lemma_filter_push(
                    self.connected@[i as int],
                    |x: i32| x != broker_id,
                );
            }
            if id != broker_id {
                kept.push(id);
            }
            i += 1;
        }
        proof {
            assert(self.connected@.take(self.connected@.len() as int) =~= self.connected@);
        }
        self.connected = kept;
    }
}

/// Whether `v` holds `id`.
fn contains_id(v: &Vec<i32>, id: i32) -> (r: bool)
    ensures
        r == v@.contains(id),
{
    let mut i: usize = 0;
    while i < v.len()
        invariant
            i <= v@.len(),
            forall|k: int| 0 <= k < i ==> v@[k] != id,
        decreases v@.len() - i,
    {
        if v[i] == id {
            return true;
        }
        i += 1;
    }
    false
}

/// Abstraction over "give me the broker to talk to", with invalidation
/// when the broker proves stale: implemented by the controller client for
/// the cluster controller, and in the same way by partition clients for
/// partition leaders. A concurrent runtime guards an implementation with
/// a lock, so that the second caller waits and reuses the first caller's
/// lookup instead of performing its own.
pub trait BrokerCache: Sized {
    /// The connection the cache currently holds.
    spec fn cached_spec(&self) -> Option<BrokerConnection>;

    /// Returns the cached connection, or looks one up and caches it.
    fn get(&mut self) -> (r: Result<BrokerConnection, Error>)
        ensures
            (old(self).cached_spec() matches Some(b) ==> (r == Ok::<BrokerConnection, Error>(b)
                && final(self).cached_spec() == Some(b))),
            r matches Ok(c) ==> final(self).cached_spec() == Some(c),
    ;

    /// Drops the cached connection: idempotent, and performs no I/O.
    fn invalidate(&mut self, reason: &str)
        ensures
            final(self).cached_spec() is None,
    ;
}

/// The generation a caller observes from the connector never decreases
/// across its own calls: each lookup hands back the connector's current
/// generation, and no operation lowers it.
pub proof fn lemma_observed_generation_monotone(
    g1: u64,
    generation_after_first: u64,
    generation_before_second: u64,
    g2: u64,
)
    requires
        g1 == generation_after_first,
        generation_after_first <= generation_before_second,
        g2 >= generation_before_second,
    ensures
        g1 <= g2,
{
}

} // verus!
