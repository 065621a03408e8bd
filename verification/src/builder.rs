//! Fluent builders for durable workflow starts, signal deliveries and bus
//! publishes. Each is pre-bound to the identity of the context that created
//! it, carries a tag set, and dispatches against the store it is given; the
//! workflow and signal builders also carry a dry-run toggle that validates
//! without persisting or delivering.
use vstd::prelude::*;

use crate::bus::{MessageBus, MsgView};
use crate::engine::{
    contains_workflow, has_signal, match_count, spec_create, spec_deliver, SignalRecord,
    SignalView, WorkflowRegistry,
};
use crate::error::EngineError;
use crate::ids::gen_uuid_v4;
use crate::tags::{tags_match, TagSet};

verus! {

/// The synthetic id a dry-run workflow dispatch returns: the nil UUID, never
/// used by a persisted instance created through a builder with a generated
/// id only by astronomical accident, and recognizable as void.
pub const NIL_ID: u128 = 0;

/// Builds one durable workflow start: type name, typed input payload, the
/// tag set signals will be addressed by, an optional caller-chosen workflow
/// id (the idempotency key of the start), and the dry-run toggle.
pub struct WorkflowBuilder {
    pub ray_id: u128,
    pub workflow_name: String,
    pub input: String,
    pub workflow_id: Option<u128>,
    pub tags: TagSet,
    pub dry_run: bool,
}

impl WorkflowBuilder {
    pub open spec fn wf(&self) -> bool {
        self.tags.wf()
    }

    pub fn new(ray_id: u128, workflow_name: String, input: String) -> (r: WorkflowBuilder)
        ensures
            r.wf(),
            r.ray_id == ray_id,
            r.workflow_name == workflow_name,
            r.input == input,
            r.workflow_id is None,
            r.tags@ == Map::<Seq<char>, Seq<char>>::empty(),
            !r.dry_run,
    {
        WorkflowBuilder {
            ray_id,
            workflow_name,
            input,
            workflow_id: None,
            tags: TagSet::new(),
            dry_run: false,
        }
    }

    pub fn tags(self, tags: TagSet) -> (r: Self)
        ensures
            r == (WorkflowBuilder { tags, ..self }),
    {
        WorkflowBuilder { tags, ..self }
    }

    pub fn workflow_id(self, id: u128) -> (r: Self)
        ensures
            r == (WorkflowBuilder { workflow_id: Some(id), ..self }),
    {
        WorkflowBuilder { workflow_id: Some(id), ..self }
    }

    pub fn dry_run(self, dry_run: bool) -> (r: Self)
        ensures
            r == (WorkflowBuilder { dry_run, ..self }),
    {
        WorkflowBuilder { dry_run, ..self }
    }

    /// Dispatch the start. An empty workflow-type name is a validation
    /// error. A dry run validates and leaves the registry exactly as it was,
    /// returning the void id. A real dispatch persists one new instance
    /// under the caller-chosen id, or reports an explicit conflict if that
    /// id already exists. With no caller-chosen id a fresh one is generated;
    /// should that fresh id collide with a live instance, the failure is
    /// reported as retryable infrastructure trouble, never as a conflict of
    /// the caller's. The registry is unchanged on every failure.
    pub fn dispatch(self, reg: &mut WorkflowRegistry) -> (r: Result<u128, EngineError>)
        requires
            old(reg).wf(),
            self.wf(),
        ensures
            final(reg).wf(),
            self.dry_run ==> final(reg)@ == old(reg)@,
            self.dry_run ==> forall|id: u128|
                contains_workflow(final(reg)@, id) == contains_workflow(old(reg)@, id),
            self.workflow_name@.len() == 0 ==> final(reg)@ == old(reg)@ && (r matches Err(e)
                && e is Validation),
            self.workflow_name@.len() > 0 && self.dry_run ==> r == Ok::<u128, EngineError>(NIL_ID),
            self.workflow_name@.len() > 0 && !self.dry_run ==> (self.workflow_id matches Some(id)
                ==> final(reg)@ == spec_create(
                old(reg)@,
                id,
                self.workflow_name@,
                self.input@,
                self.tags@,
            ) && r == (if contains_workflow(old(reg)@, id) {
                Err::<u128, EngineError>(EngineError::WorkflowConflict)
            } else {
                Ok::<u128, EngineError>(id)
            })),
            self.workflow_name@.len() > 0 && !self.dry_run && self.workflow_id is None ==> (match r {
                Ok(id) => !contains_workflow(old(reg)@, id) && final(reg)@ == spec_create(
                    old(reg)@,
                    id,
                    self.workflow_name@,
                    self.input@,
                    self.tags@,
                ) && contains_workflow(final(reg)@, id),
                Err(e) => e == EngineError::Infrastructure && final(reg)@ == old(reg)@,
            }),
    {
        if self.workflow_name.as_str().is_empty() {
            return Err(
                EngineError::Validation {
                    message: "workflow type name must not be empty".to_owned(),
                },
            );
        }
        if self.dry_run {
            return Ok(NIL_ID);
        }
        match self.workflow_id {
            Some(id) => reg.create_workflow(id, self.workflow_name, self.input, self.tags),
            None => {
                let id = gen_uuid_v4();
                match reg.create_workflow(id, self.workflow_name, self.input, self.tags) {
                    Ok(id) => Ok(id),
                    Err(_) => Err(EngineError::Infrastructure),
                }
            },
        }
    }
}

/// Builds one signal delivery: type name, payload, the target tag set, an
/// optional caller-chosen idempotency key, and the dry-run toggle.
pub struct SignalBuilder {
    pub ray_id: u128,
    pub signal_name: String,
    pub body: String,
    pub signal_id: Option<u128>,
    pub tags: TagSet,
    pub dry_run: bool,
}

impl SignalBuilder {
    pub open spec fn wf(&self) -> bool {
        self.tags.wf()
    }

    pub fn new(ray_id: u128, signal_name: String, body: String) -> (r: SignalBuilder)
        ensures
            r.wf(),
            r.ray_id == ray_id,
            r.signal_name == signal_name,
            r.body == body,
            r.signal_id is None,
            r.tags@ == Map::<Seq<char>, Seq<char>>::empty(),
            !r.dry_run,
    {
        SignalBuilder {
            ray_id,
            signal_name,
            body,
            signal_id: None,
            tags: TagSet::new(),
            dry_run: false,
        }
    }

    pub fn tags(self, tags: TagSet) -> (r: Self)
        ensures
            r == (SignalBuilder { tags, ..self }),
    {
        SignalBuilder { tags, ..self }
    }

    pub fn signal_id(self, id: u128) -> (r: Self)
        ensures
            r == (SignalBuilder { signal_id: Some(id), ..self }),
    {
        SignalBuilder { signal_id: Some(id), ..self }
    }

    pub fn dry_run(self, dry_run: bool) -> (r: Self)
        ensures
            r == (SignalBuilder { dry_run, ..self }),
    {
        SignalBuilder { dry_run, ..self }
    }

    /// Dispatch the signal. An empty signal-type name is a validation error.
    /// A target matching no live instance is an explicit not-found, one
    /// matching several an explicit ambiguity — in both cases nothing
    /// changes, silently succeeding is never an option. On the unique match
    /// the signal is delivered at most once per idempotency key; a dry run
    /// reports the same resolution and delivers nothing.
    pub fn dispatch(self, reg: &mut WorkflowRegistry) -> (r: Result<u128, EngineError>)
        requires
            old(reg).wf(),
            self.wf(),
        ensures
            final(reg).wf(),
            self.dry_run ==> final(reg)@ == old(reg)@,
            self.signal_name@.len() == 0 ==> final(reg)@ == old(reg)@ && (r matches Err(e)
                && e is Validation),
            self.signal_name@.len() > 0 && match_count(
                old(reg)@,
                0,
                old(reg)@.len() as int,
                self.tags@,
            ) == 0 ==> r == Err::<u128, EngineError>(EngineError::WorkflowNotFound) && final(reg)@
                == old(reg)@,
            self.signal_name@.len() > 0 && match_count(
                old(reg)@,
                0,
                old(reg)@.len() as int,
                self.tags@,
            ) > 1 ==> r == Err::<u128, EngineError>(EngineError::AmbiguousSignalTarget)
                && final(reg)@ == old(reg)@,
            self.signal_name@.len() > 0 && match_count(
                old(reg)@,
                0,
                old(reg)@.len() as int,
                self.tags@,
            ) == 1 ==> forall|i: int|
                0 <= i < old(reg)@.len() && tags_match(self.tags@, (#[trigger] old(reg)@[i]).tags)
                    ==> r == Ok::<u128, EngineError>(old(reg)@[i].workflow_id),
            self.signal_name@.len() > 0 && !self.dry_run && match_count(
                old(reg)@,
                0,
                old(reg)@.len() as int,
                self.tags@,
            ) == 1 ==> exists|sid: u128|
                {
                    &&& final(reg)@ == spec_deliver(
                        old(reg)@,
                        self.tags@,
                        (SignalView {
                            signal_id: sid,
                            signal_name: self.signal_name@,
                            body: self.body@,
                            ray_id: self.ray_id,
                        }),
                    )
                    &&& (self.signal_id matches Some(chosen) ==> sid == chosen)
                    &&& forall|i: int|
                        0 <= i < old(reg)@.len() && tags_match(
                            self.tags@,
                            (#[trigger] old(reg)@[i]).tags,
                        ) ==> has_signal(final(reg)@[i].received_signals, sid)
                },
    {
        if self.signal_name.as_str().is_empty() {
            return Err(
                EngineError::Validation {
                    message: "signal type name must not be empty".to_owned(),
                },
            );
        }
        if self.dry_run {
            return reg.resolve_signal_target(&self.tags);
        }
        let sid = match self.signal_id {
            Some(id) => id,
            None => gen_uuid_v4(),
        };
        let record = SignalRecord {
            signal_id: sid,
            signal_name: self.signal_name,
            body: self.body,
            ray_id: self.ray_id,
        };
        reg.deliver_signal(record, &self.tags)
    }
}

/// Builds one fire-and-forget publish: type name, payload and tags, bound to
/// the publishing context's ray id and timestamp.
pub struct MessageBuilder {
    pub ray_id: u128,
    pub ts: i64,
    pub message_name: String,
    pub body: String,
    pub tags: TagSet,
}

impl MessageBuilder {
    pub open spec fn wf(&self) -> bool {
        self.tags.wf()
    }

    pub fn new(ray_id: u128, ts: i64, message_name: String, body: String) -> (r: MessageBuilder)
        ensures
            r.wf(),
            r.ray_id == ray_id,
            r.ts == ts,
            r.message_name == message_name,
            r.body == body,
            r.tags@ == Map::<Seq<char>, Seq<char>>::empty(),
    {
        MessageBuilder { ray_id, ts, message_name, body, tags: TagSet::new() }
    }

    pub fn tags(self, tags: TagSet) -> (r: Self)
        ensures
            r == (MessageBuilder { tags, ..self }),
    {
        MessageBuilder { tags, ..self }
    }

    /// Publish the message: the bus accepts it and appends it to the log.
    /// Success means acceptance, not that any subscriber consumed it.
    pub fn dispatch(self, bus: &mut MessageBus) -> (seq: u64)
        requires
            old(bus).wf(),
            self.wf(),
            old(bus)@.len() < u64::MAX,
        ensures
            final(bus).wf(),
            seq == old(bus)@.len(),
            final(bus)@ == old(bus)@.push(
                MsgView {
                    seq: old(bus)@.len() as u64,
                    ts: self.ts,
                    ray_id: self.ray_id,
                    message_name: self.message_name@,
                    tags: self.tags@,
                    body: self.body@,
                },
            ),
    {
        bus.publish(self.message_name, self.tags, self.body, self.ray_id, self.ts)
    }
}

} // verus!
