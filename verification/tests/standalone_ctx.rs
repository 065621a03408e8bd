use workflow_core::bus::MessageBus;
use workflow_core::ctx::{
    AccessKind, CacheHandle, ChirpClient, Config, Connection, CrdbPool, RedisPool, StandaloneCtx,
};
use workflow_core::engine::WorkflowRegistry;
use workflow_core::error::{EngineError, ErrorClass};
use workflow_core::ops::{Operation, OperationCtx};
use workflow_core::tags::TagSet;

fn connection() -> Connection {
    Connection {
        chirp: ChirpClient { ray_id: 0 },
        cache: CacheHandle { cache_id: 5 },
        trace: Vec::new(),
        crdb: Some(CrdbPool { pool_id: 1 }),
        redis_chirp: Some(RedisPool { pool_id: 2 }),
        redis_cache: None,
        redis_cdn: None,
        redis_job: None,
        redis_mm: None,
        clickhouse: None,
        clickhouse_inserter: None,
        fdb: None,
        sqlite: Some(6),
    }
}

fn ctx() -> StandaloneCtx {
    StandaloneCtx::new(
        Config { access_kind: AccessKind::Public },
        connection(),
        "api-auth".to_string(),
        1000,
    )
}

#[test]
fn context_identity_is_bound_at_construction() {
    let c = ctx();
    assert_eq!(c.name(), "api-auth");
    assert_eq!(c.ts(), 1000);
    assert_eq!(c.req_ts(), 1000);
    assert_eq!(c.req_dt(), 0);
    assert_eq!(c.config().access_kind, AccessKind::Public);
    assert_eq!(c.op_ctx().ray_id, c.ray_id());
    assert_eq!(c.op_ctx().req_id, c.req_id());
}

#[test]
fn builders_inherit_the_context_ray_id() {
    let c = ctx();
    let wf = c.workflow("user-lifecycle".to_string(), "{}".to_string());
    let sig = c.signal("profile_set".to_string(), "{}".to_string());
    let msg = c.msg("user.update".to_string(), "{}".to_string());
    assert_eq!(wf.ray_id, c.ray_id());
    assert_eq!(sig.ray_id, c.ray_id());
    assert_eq!(msg.ray_id, c.ray_id());
    assert_eq!(msg.ts, c.ts());
}

#[test]
fn pool_accessors_report_unavailable_backends() {
    let c = ctx();
    assert_eq!(c.crdb(), Ok(CrdbPool { pool_id: 1 }));
    assert_eq!(c.redis_chirp(), Ok(RedisPool { pool_id: 2 }));
    assert_eq!(c.redis_cache(), Err(EngineError::PoolUnavailable));
    assert_eq!(c.fdb(), Err(EngineError::PoolUnavailable));
    assert_eq!(c.clickhouse(), Err(EngineError::PoolUnavailable));
    let sqlite = c.sqlite_for_workflow(42).unwrap();
    assert_eq!(sqlite.pool_id, 6);
    assert_eq!(sqlite.workflow_id, 42);
    assert!(EngineError::PoolUnavailable.is_retryable());
    assert_eq!(EngineError::PoolUnavailable.class(), ErrorClass::Infrastructure);
}

#[test]
fn cache_accessors_share_one_backend() {
    let c = ctx();
    assert_eq!(c.cache().cache_id, 5);
    assert_eq!(c.cache_handle(), CacheHandle { cache_id: 5 });
}

struct EchoCount {
    values: Vec<i64>,
}

impl Operation for EchoCount {
    type Output = i64;

    // ghost members of the trait; never called in a compiled build
    fn spec_output(&self) -> Result<i64, EngineError> {
        unreachable!()
    }

    fn spec_name(&self) -> vstd::seq::Seq<char> {
        unreachable!()
    }

    fn op_name(&self) -> String {
        "echo-count".to_string()
    }

    fn handle(self, _octx: &OperationCtx) -> Result<i64, EngineError> {
        if self.values.is_empty() {
            Err(EngineError::Validation { message: "no values".to_string() })
        } else {
            Ok(self.values.len() as i64)
        }
    }
}

#[test]
fn derived_operation_identity_traces_with_the_context() {
    let c = ctx();
    let octx = c.derived_op_ctx("user-get".to_string());
    assert_eq!(octx.ray_id, c.ray_id());
    assert_eq!(octx.name, "user-get");
    assert_eq!(octx.ts, c.ts());
    assert_eq!(octx.req_ts, c.req_ts());
}

#[test]
fn operations_return_their_outcome_unchanged() {
    let c = ctx();
    assert_eq!(c.op(EchoCount { values: vec![1, 2, 3] }), Ok(3));
    assert_eq!(
        c.op(EchoCount { values: Vec::new() }),
        Err(EngineError::Validation { message: "no values".to_string() })
    );
}

#[test]
fn context_dispatch_and_observe_round_trip() {
    let c = ctx();
    let mut reg = WorkflowRegistry::new();
    let mut bus = MessageBus::new();
    let mut tags = TagSet::new();
    tags.insert("user_id".to_string(), "U1".to_string());

    let wid = c
        .workflow("user-lifecycle".to_string(), "{}".to_string())
        .workflow_id(42)
        .tags(tags.clone())
        .dispatch(&mut reg)
        .unwrap();
    assert_eq!(wid, 42);

    let sub = c.subscribe(&bus, "user.update".to_string(), tags.clone());
    c.msg("user.update".to_string(), "{}".to_string()).tags(tags.clone()).dispatch(&mut bus);
    let mut sub = sub;
    let seen = sub.next(&bus).expect("the subscriber sees the publish");
    assert_eq!(seen.ray_id, c.ray_id());
    assert_eq!(seen.ts, c.ts());

    let latest = c.tail_read(&bus, &"user.update".to_string(), &tags).unwrap();
    assert_eq!(latest.seq, 0);
}
