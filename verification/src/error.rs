//! Error taxonomy of the core: validation errors (caller bugs), routing
//! errors (nothing or too much matched), policy rejections, revoked
//! entities, and infrastructure failures (retryable).
use vstd::prelude::*;

verus! {

/// One error condition of the core, mirroring how callers must react:
/// change the input, correct the target, stop, clear credentials, or retry.
#[derive(Debug, Clone, PartialEq, Eq)]
pub enum EngineError {
    /// Caller-supplied input breaks a business rule; the message lists the
    /// offending fields. Not retryable without changing the input.
    Validation { message: String },
    /// A signal targeted a tag set matching no live workflow instance.
    WorkflowNotFound,
    /// A signal targeted a tag set matching more than one live instance;
    /// signals are never broadcast.
    AmbiguousSignalTarget,
    /// A workflow with the caller-chosen id already exists; dispatching the
    /// same id twice never creates a second instance.
    WorkflowConflict,
    /// The environment looked up does not exist or belongs to another game.
    EnvironmentNotFound,
    /// The project (game) looked up does not exist.
    ProjectNotFound,
    /// No claims were presented where some were required.
    Unauthorized,
    /// Claims were presented but do not permit the call; terminal.
    Forbidden { reason: String },
    /// A previously valid token or user has since been invalidated; callers
    /// should clear any held credentials.
    TokenRevoked,
    /// The refresh token presented for renewal is not known to the issuer.
    TokenRefreshNotFound,
    /// The user is not a member of the group that owns the resource.
    GroupNotMember,
    /// The owning group has been deactivated; the reasons are joined into
    /// one readable string.
    GroupDeactivated { reasons: String },
    /// A backend pool is unreachable or not configured; retryable.
    PoolUnavailable,
    /// Transport or persistence failed mid-call; retryable.
    Infrastructure,
}

/// The coarse classes of §errors that callers branch on.
#[derive(Debug, Clone, Copy, PartialEq, Eq, Structural)]
pub enum ErrorClass {
    /// Caller bug: fix the input, do not retry as-is.
    Validation,
    /// Target absent or ambiguous: correct the tags or treat as gone.
    Routing,
    /// Policy said no: terminal, never retried automatically.
    Policy,
    /// Identity invalidated since issuance: drop held credentials.
    Revoked,
    /// Backend trouble: retry with backoff.
    Infrastructure,
}

impl EngineError {
    /// The class a given error belongs to.
    pub open spec fn spec_class(&self) -> ErrorClass {
        match self {
            EngineError::Validation { .. } => ErrorClass::Validation,
            EngineError::WorkflowNotFound => ErrorClass::Routing,
            EngineError::AmbiguousSignalTarget => ErrorClass::Routing,
            EngineError::WorkflowConflict => ErrorClass::Routing,
            EngineError::EnvironmentNotFound => ErrorClass::Routing,
            EngineError::ProjectNotFound => ErrorClass::Routing,
            EngineError::Unauthorized => ErrorClass::Policy,
            EngineError::Forbidden { .. } => ErrorClass::Policy,
            EngineError::TokenRevoked => ErrorClass::Revoked,
            EngineError::TokenRefreshNotFound => ErrorClass::Revoked,
            EngineError::GroupNotMember => ErrorClass::Policy,
            EngineError::GroupDeactivated { .. } => ErrorClass::Revoked,
            EngineError::PoolUnavailable => ErrorClass::Infrastructure,
            EngineError::Infrastructure => ErrorClass::Infrastructure,
        }
    }

    pub fn class(&self) -> (c: ErrorClass)
        ensures
            c == self.spec_class(),
    {
        match self {
            EngineError::Validation { .. } => ErrorClass::Validation,
            EngineError::WorkflowNotFound => ErrorClass::Routing,
            EngineError::AmbiguousSignalTarget => ErrorClass::Routing,
            EngineError::WorkflowConflict => ErrorClass::Routing,
            EngineError::EnvironmentNotFound => ErrorClass::Routing,
            EngineError::ProjectNotFound => ErrorClass::Routing,
            EngineError::Unauthorized => ErrorClass::Policy,
            EngineError::Forbidden { .. } => ErrorClass::Policy,
            EngineError::TokenRevoked => ErrorClass::Revoked,
            EngineError::TokenRefreshNotFound => ErrorClass::Revoked,
            EngineError::GroupNotMember => ErrorClass::Policy,
            EngineError::GroupDeactivated { .. } => ErrorClass::Revoked,
            EngineError::PoolUnavailable => ErrorClass::Infrastructure,
            EngineError::Infrastructure => ErrorClass::Infrastructure,
        }
    }

    /// Only infrastructure trouble may be retried with the same input.
    pub fn is_retryable(&self) -> (r: bool)
        ensures
            r == (self.spec_class() == ErrorClass::Infrastructure),
    {
        matches!(self.class(), ErrorClass::Infrastructure)
    }
}

} // verus!
