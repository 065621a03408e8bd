//! The execution context: the composition root binding one request identity
//! (request id, ray id, timestamps), the immutable configuration and the
//! connection-pool facade into one value handed to all business logic. Its
//! factory methods return builders pre-bound to this identity, so call sites
//! cannot mix identities from two different requests.
use vstd::prelude::*;

use crate::builder::{MessageBuilder, SignalBuilder, WorkflowBuilder};
use crate::bus::{MessageBus, MessageEnvelope, SubscriptionHandle, TailAnchor, TailAnchorResponse};
use crate::bus::{matching_in, anchor_start, MsgView};
use crate::error::EngineError;
use crate::ids::gen_uuid_v4;
use crate::ops::{Operation, OperationCtx};
use crate::tags::TagSet;

verus! {

/// How the deployment admits users; development mode has a well-known
/// default user instead of registering guests.
#[derive(Clone, Copy, Debug, PartialEq, Eq, Structural)]
pub enum AccessKind {
    Public,
    Private,
    Development,
}

/// Immutable, shared configuration.
#[derive(Clone, Copy, Debug, PartialEq, Eq, Structural)]
pub struct Config {
    pub access_kind: AccessKind,
}

/// One hop of the request chain, for tracing.
pub struct TraceEntry {
    pub context_name: String,
    pub req_id: u128,
    pub ray_id: u128,
    pub ts: i64,
}

/// The transport client, bound to the ray id it propagates.
#[derive(Clone, Copy, Debug, PartialEq, Eq, Structural)]
pub struct ChirpClient {
    pub ray_id: u128,
}

/// Shared handle to the cache backend.
#[derive(Clone, Copy, Debug, PartialEq, Eq, Structural)]
pub struct CacheHandle {
    pub cache_id: u64,
}

/// Request-scoped accessor onto the same cache backend.
#[derive(Clone, Copy, Debug, PartialEq, Eq, Structural)]
pub struct CacheRequestConfig {
    pub cache_id: u64,
}

/// Leased handle to the relational pool.
#[derive(Clone, Copy, Debug, PartialEq, Eq, Structural)]
pub struct CrdbPool {
    pub pool_id: u64,
}

/// Leased handle to one of the key-value pools.
#[derive(Clone, Copy, Debug, PartialEq, Eq, Structural)]
pub struct RedisPool {
    pub pool_id: u64,
}

/// Leased handle to the columnar analytics pool.
#[derive(Clone, Copy, Debug, PartialEq, Eq, Structural)]
pub struct ClickHousePool {
    pub pool_id: u64,
}

/// Handle to the analytics batch inserter.
#[derive(Clone, Copy, Debug, PartialEq, Eq, Structural)]
pub struct ClickHouseInserterHandle {
    pub inserter_id: u64,
}

/// Leased handle to the embedded key-value pool.
#[derive(Clone, Copy, Debug, PartialEq, Eq, Structural)]
pub struct FdbPool {
    pub pool_id: u64,
}

/// Handle to one workflow's embedded relational store.
#[derive(Clone, Copy, Debug, PartialEq, Eq, Structural)]
pub struct SqlitePool {
    pub pool_id: u64,
    pub workflow_id: u128,
}

/// The connection-pool facade: handles to each distinct backend, each
/// present when that backend is configured and reachable.
pub struct Connection {
    pub chirp: ChirpClient,
    pub cache: CacheHandle,
    pub trace: Vec<TraceEntry>,
    pub crdb: Option<CrdbPool>,
    pub redis_chirp: Option<RedisPool>,
    pub redis_cache: Option<RedisPool>,
    pub redis_cdn: Option<RedisPool>,
    pub redis_job: Option<RedisPool>,
    pub redis_mm: Option<RedisPool>,
    pub clickhouse: Option<ClickHousePool>,
    pub clickhouse_inserter: Option<ClickHouseInserterHandle>,
    pub fdb: Option<FdbPool>,
    pub sqlite: Option<u64>,
}

/// The standalone execution context, created once per incoming request or
/// background job and cloned cheaply into sub-tasks. The durable stores (the
/// workflow registry and the message bus) live outside it and are handed to
/// each dispatch, mirroring that all cross-call state is external.
pub struct StandaloneCtx {
    ray_id: u128,
    name: String,
    ts: i64,
    config: Config,
    conn: Connection,
    op_ctx: OperationCtx,
}

impl StandaloneCtx {
    pub closed spec fn spec_ray_id(&self) -> u128 {
        self.ray_id
    }

    pub closed spec fn spec_req_id(&self) -> u128 {
        self.op_ctx.req_id
    }

    pub closed spec fn spec_name(&self) -> Seq<char> {
        self.name@
    }

    pub closed spec fn spec_ts(&self) -> i64 {
        self.ts
    }

    pub closed spec fn spec_req_ts(&self) -> i64 {
        self.op_ctx.req_ts
    }

    pub closed spec fn spec_config(&self) -> Config {
        self.config
    }

    pub closed spec fn spec_conn(&self) -> Connection {
        self.conn
    }

    /// Construct a context for one request: a fresh request id and ray id
    /// are generated, and every identity this context hands out is bound to
    /// them.
    pub fn new(config: Config, conn: Connection, name: String, ts: i64) -> (r: StandaloneCtx)
        ensures
            r.spec_name() == name@,
            r.spec_ts() == ts,
            r.spec_req_ts() == ts,
            r.spec_config() == config,
            r.spec_conn() == conn,
            r.spec_op_ctx().ray_id == r.spec_ray_id(),
            r.spec_op_ctx().req_id == r.spec_req_id(),
            r.spec_op_ctx().name@ == name@,
            r.spec_op_ctx().ts == ts,
            r.spec_op_ctx().req_ts == ts,
    {
        let req_id = gen_uuid_v4();
        let ray_id = gen_uuid_v4();
        let op_ctx = OperationCtx { name: name.clone(), req_id, ray_id, ts, req_ts: ts };
        StandaloneCtx { ray_id, name, ts, config, conn, op_ctx }
    }

    /// A workflow builder bound to this context's ray id, with empty tags
    /// and dry-run off.
    pub fn workflow(&self, workflow_name: String, input: String) -> (r: WorkflowBuilder)
        ensures
            r.wf(),
            r.ray_id == self.spec_ray_id(),
            r.workflow_name == workflow_name,
            r.input == input,
            r.workflow_id is None,
            r.tags@ == Map::<Seq<char>, Seq<char>>::empty(),
            !r.dry_run,
    {
        WorkflowBuilder::new(self.ray_id, workflow_name, input)
    }

    /// A signal builder bound to this context's ray id.
    pub fn signal(&self, signal_name: String, body: String) -> (r: SignalBuilder)
        ensures
            r.wf(),
            r.ray_id == self.spec_ray_id(),
            r.signal_name == signal_name,
            r.body == body,
            r.signal_id is None,
            r.tags@ == Map::<Seq<char>, Seq<char>>::empty(),
            !r.dry_run,
    {
        SignalBuilder::new(self.ray_id, signal_name, body)
    }

    /// A message builder bound to this context's ray id and timestamp.
    pub fn msg(&self, message_name: String, body: String) -> (r: MessageBuilder)
        ensures
            r.wf(),
            r.ray_id == self.spec_ray_id(),
            r.ts == self.spec_ts(),
            r.message_name == message_name,
            r.body == body,
            r.tags@ == Map::<Seq<char>, Seq<char>>::empty(),
    {
        MessageBuilder::new(self.ray_id, self.ts, message_name, body)
    }

    /// The identity a downstream operation runs under: this context's ray id
    /// (the whole chain traces together) and timestamps, with a fresh
    /// request id for the one call.
    pub fn derived_op_ctx(&self, name: String) -> (r: OperationCtx)
        ensures
            r.ray_id == self.spec_ray_id(),
            r.name == name,
            r.ts == self.spec_ts(),
            r.req_ts == self.spec_req_ts(),
    {
        OperationCtx {
            name,
            req_id: gen_uuid_v4(),
            ray_id: self.ray_id,
            ts: self.ts,
            req_ts: self.op_ctx.req_ts,
        }
    }

    /// Dispatch a stateless operation: the input's shape picks the handler,
    /// and the handler's deterministic outcome is returned unchanged. The
    /// identity handed to the handler is `self.derived_op_ctx(..)` — this
    /// context's ray id and timestamps with a fresh request id; that
    /// derivation carries its own contract, while this one is silent about
    /// it by design: a handler's outcome depends on its input alone, never
    /// on the identity it runs under, so no clause here may mention it.
    pub fn op<I: Operation>(&self, input: I) -> (r: Result<I::Output, EngineError>)
        ensures
            r == input.spec_output(),
    {
        let octx = self.derived_op_ctx(input.op_name());
        input.handle(&octx)
    }

    /// Open a subscription on the bus, filtered by message name and tags,
    /// observing what is published from now on.
    pub fn subscribe(&self, bus: &MessageBus, message_name: String, tags: TagSet) -> (h:
        SubscriptionHandle)
        requires
            tags.wf(),
        ensures
            h.is_open(),
            h.wf(),
            h.filter_name() == message_name@,
            h.filter_tags() == tags@,
            h.cursor() == bus@.len(),
    {
        bus.subscribe(message_name, tags)
    }

    /// The most recent matching message, if any was ever published.
    pub fn tail_read<'a>(
        &self,
        bus: &'a MessageBus,
        message_name: &String,
        tags: &TagSet,
    ) -> (r: Option<&'a MessageEnvelope>)
        requires
            bus.wf(),
            tags.wf(),
        ensures
            match r {
                None => matching_in(bus@, 0, bus@.len() as int, message_name@, tags@)
                    == Seq::<MsgView>::empty(),
                Some(m) => {
                    &&& matching_in(bus@, 0, bus@.len() as int, message_name@, tags@).len() > 0
                    &&& m@ == matching_in(bus@, 0, bus@.len() as int, message_name@, tags@).last()
                },
            },
    {
        bus.tail_read(message_name, tags)
    }

    /// The matching messages published strictly after the anchor, with a new
    /// anchor subsuming them, or an explicit nothing-new result.
    pub fn tail_anchor(
        &self,
        bus: &MessageBus,
        message_name: &String,
        tags: &TagSet,
        anchor: &TailAnchor,
    ) -> (r: TailAnchorResponse)
        requires
            bus.wf(),
            tags.wf(),
        ensures
            match r {
                TailAnchorResponse::NoNewMessages => matching_in(
                    bus@,
                    anchor_start(anchor.offset as int, bus@.len() as int),
                    bus@.len() as int,
                    message_name@,
                    tags@,
                ) == Seq::<MsgView>::empty(),
                TailAnchorResponse::Messages { messages, anchor: new_anchor } => {
                    &&& messages@.map_values(|e: MessageEnvelope| e@) == matching_in(
                        bus@,
                        anchor_start(anchor.offset as int, bus@.len() as int),
                        bus@.len() as int,
                        message_name@,
                        tags@,
                    )
                    &&& messages@.len() > 0
                    &&& new_anchor.offset == bus@.len()
                },
            },
    {
        bus.tail_anchor(message_name, tags, anchor)
    }

    pub fn name(&self) -> (r: &String)
        ensures
            r@ == self.spec_name(),
    {
        &self.name
    }

    pub fn req_id(&self) -> (r: u128)
        ensures
            r == self.spec_req_id(),
    {
        self.op_ctx.req_id
    }

    pub fn ray_id(&self) -> (r: u128)
        ensures
            r == self.spec_ray_id(),
    {
        self.ray_id
    }

    /// Timestamp at which the request started.
    pub fn ts(&self) -> (r: i64)
        ensures
            r == self.spec_ts(),
    {
        self.ts
    }

    /// Timestamp at which the request was published.
    pub fn req_ts(&self) -> (r: i64)
        ensures
            r == self.spec_req_ts(),
    {
        self.op_ctx.req_ts
    }

    /// Time between when the request was processed and when it was
    /// published, saturating at the i64 bounds.
    pub fn req_dt(&self) -> (r: i64)
        ensures
            r == crate::ctx::saturating_sub_i64(self.spec_ts() as int, self.spec_req_ts() as int),
    {
        let d: i128 = self.ts as i128 - self.op_ctx.req_ts as i128;
        if d < i64::MIN as i128 {
            i64::MIN
        } else if d > i64::MAX as i128 {
            i64::MAX
        } else {
            d as i64
        }
    }

    pub fn config(&self) -> (r: &Config)
        ensures
            *r == self.spec_config(),
    {
        &self.config
    }

    pub fn trace(&self) -> (r: &Vec<TraceEntry>)
        ensures
            *r == self.spec_conn().trace,
    {
        &self.conn.trace
    }

    pub fn chirp(&self) -> (r: &ChirpClient)
        ensures
            *r == self.spec_conn().chirp,
    {
        &self.conn.chirp
    }

    pub fn cache(&self) -> (r: CacheRequestConfig)
        ensures
            r.cache_id == self.spec_conn().cache.cache_id,
    {
        CacheRequestConfig { cache_id: self.conn.cache.cache_id }
    }

    pub fn cache_handle(&self) -> (r: CacheHandle)
        ensures
            r == self.spec_conn().cache,
    {
        self.conn.cache
    }

    pub fn crdb(&self) -> (r: Result<CrdbPool, EngineError>)
        ensures
            match r {
                Ok(p) => self.spec_conn().crdb == Some(p),
                Err(e) => self.spec_conn().crdb is None && e == EngineError::PoolUnavailable,
            },
    {
        match &self.conn.crdb {
            Some(p) => Ok(*p),
            None => Err(EngineError::PoolUnavailable),
        }
    }

    pub fn redis_chirp(&self) -> (r: Result<RedisPool, EngineError>)
        ensures
            match r {
                Ok(p) => self.spec_conn().redis_chirp == Some(p),
                Err(e) => self.spec_conn().redis_chirp is None && e == EngineError::PoolUnavailable,
            },
    {
        match &self.conn.redis_chirp {
            Some(p) => Ok(*p),
            None => Err(EngineError::PoolUnavailable),
        }
    }

    pub fn redis_cache(&self) -> (r: Result<RedisPool, EngineError>)
        ensures
            match r {
                Ok(p) => self.spec_conn().redis_cache == Some(p),
                Err(e) => self.spec_conn().redis_cache is None && e == EngineError::PoolUnavailable,
            },
    {
        match &self.conn.redis_cache {
            Some(p) => Ok(*p),
            None => Err(EngineError::PoolUnavailable),
        }
    }

    pub fn redis_cdn(&self) -> (r: Result<RedisPool, EngineError>)
        ensures
            match r {
                Ok(p) => self.spec_conn().redis_cdn == Some(p),
                Err(e) => self.spec_conn().redis_cdn is None && e == EngineError::PoolUnavailable,
            },
    {
        match &self.conn.redis_cdn {
            Some(p) => Ok(*p),
            None => Err(EngineError::PoolUnavailable),
        }
    }

    pub fn redis_job(&self) -> (r: Result<RedisPool, EngineError>)
        ensures
            match r {
                Ok(p) => self.spec_conn().redis_job == Some(p),
                Err(e) => self.spec_conn().redis_job is None && e == EngineError::PoolUnavailable,
            },
    {
        match &self.conn.redis_job {
            Some(p) => Ok(*p),
            None => Err(EngineError::PoolUnavailable),
        }
    }

    pub fn redis_mm(&self) -> (r: Result<RedisPool, EngineError>)
        ensures
            match r {
                Ok(p) => self.spec_conn().redis_mm == Some(p),
                Err(e) => self.spec_conn().redis_mm is None && e == EngineError::PoolUnavailable,
            },
    {
        match &self.conn.redis_mm {
            Some(p) => Ok(*p),
            None => Err(EngineError::PoolUnavailable),
        }
    }

    pub fn clickhouse(&self) -> (r: Result<ClickHousePool, EngineError>)
        ensures
            match r {
                Ok(p) => self.spec_conn().clickhouse == Some(p),
                Err(e) => self.spec_conn().clickhouse is None && e == EngineError::PoolUnavailable,
            },
    {
        match &self.conn.clickhouse {
            Some(p) => Ok(*p),
            None => Err(EngineError::PoolUnavailable),
        }
    }

    pub fn clickhouse_inserter(&self) -> (r: Result<ClickHouseInserterHandle, EngineError>)
        ensures
            match r {
                Ok(p) => self.spec_conn().clickhouse_inserter == Some(p),
                Err(e) => self.spec_conn().clickhouse_inserter is None && e
                    == EngineError::PoolUnavailable,
            },
    {
        match &self.conn.clickhouse_inserter {
            Some(p) => Ok(*p),
            None => Err(EngineError::PoolUnavailable),
        }
    }

    pub fn fdb(&self) -> (r: Result<FdbPool, EngineError>)
        ensures
            match r {
                Ok(p) => self.spec_conn().fdb == Some(p),
                Err(e) => self.spec_conn().fdb is None && e == EngineError::PoolUnavailable,
            },
    {
        match &self.conn.fdb {
            Some(p) => Ok(*p),
            None => Err(EngineError::PoolUnavailable),
        }
    }

    /// The embedded store of one workflow instance.
    pub fn sqlite_for_workflow(&self, workflow_id: u128) -> (r: Result<SqlitePool, EngineError>)
        ensures
            match r {
                Ok(p) => self.spec_conn().sqlite == Some(p.pool_id) && p.workflow_id == workflow_id,
                Err(e) => self.spec_conn().sqlite is None && e == EngineError::PoolUnavailable,
            },
    {
        match &self.conn.sqlite {
            Some(pool_id) => Ok(SqlitePool { pool_id: *pool_id, workflow_id }),
            None => Err(EngineError::PoolUnavailable),
        }
    }

    pub closed spec fn spec_op_ctx(&self) -> OperationCtx {
        self.op_ctx
    }

    /// The operation-context view of this context's identity.
    pub fn op_ctx(&self) -> (r: &OperationCtx)
        ensures
            *r == self.spec_op_ctx(),
    {
        &self.op_ctx
    }
}

/// i64 subtraction clamped to the i64 range.
pub open spec fn saturating_sub_i64(a: int, b: int) -> int {
    if a - b < i64::MIN {
        i64::MIN as int
    } else if a - b > i64::MAX {
        i64::MAX as int
    } else {
        a - b
    }
}

} // verus!
