//! Client-side coordination primitives over a lease/lock/election service:
//! renewable sessions, leases, locks and leader-election candidates, each
//! written as a verified state machine or resource whose network calls are
//! performed by the caller.

pub mod election;
pub mod errors;
pub mod lease;
pub mod lock;
pub mod lock_service;
pub mod messages;
pub mod observers;
pub mod session;

pub use self::election::{ElectionCandidate, ElectionCommand, ElectionState, ElectionStep};
pub use self::errors::Error;
pub use self::lease::Lease;
pub use self::lock::Lock;
pub use self::lock_service::{LockClient, LockServer, MethodDescriptor, ServiceDefinition};
pub use self::messages::{
    CampaignRequest, CampaignResponse, LeaderKey, LeaseGrantRequest, LeaseGrantResponse,
    LeaseKeepAliveRequest, LeaseKeepAliveResponse, LeaseRevokeRequest, LeaseRevokeResponse,
    LockRequest, LockResponse, UnlockRequest, UnlockResponse,
};
pub use self::observers::{Notification, Subscribers};
pub use self::session::{
    SessionCommand, SessionManager, SessionManagerState, SessionStep, Supervision,
    DEFAULT_SESSION_TTL, FAILURE_TERMINATION_DELAY_SECS, KEEP_ALIVE_PERIOD_SECS,
};
