use vstd::prelude::*;

verus! {

/// Asks the server for a lease; an `id` of 0 lets the server choose one.
#[derive(Debug, PartialEq, Eq)]
pub struct LeaseGrantRequest {
    pub id: i64,
    pub ttl: i64,
}

/// The server's answer to a grant: a non-empty `error` means it was refused.
#[derive(Debug, PartialEq, Eq)]
pub struct LeaseGrantResponse {
    pub id: i64,
    pub ttl: i64,
    pub error: String,
}

/// Asks the server to end a lease before it expires.
#[derive(Debug, PartialEq, Eq)]
pub struct LeaseRevokeRequest {
    pub id: i64,
}

/// The server's answer to a revoke; nothing in it is used.
#[derive(Debug, PartialEq, Eq)]
pub struct LeaseRevokeResponse {}

/// One renewal placed on the keep-alive stream.
#[derive(Debug, PartialEq, Eq)]
pub struct LeaseKeepAliveRequest {
    pub id: i64,
}

/// One liveness signal from the keep-alive stream; a `ttl` of 0 means the
/// lease is gone.
#[derive(Debug, PartialEq, Eq)]
pub struct LeaseKeepAliveResponse {
    pub id: i64,
    pub ttl: i64,
}

/// The key under which an elected candidate holds leadership.
#[derive(Debug, PartialEq, Eq)]
pub struct LeaderKey {
    pub name: Vec<u8>,
    pub key: Vec<u8>,
    pub rev: i64,
    pub lease: i64,
}

/// Enters `value` as a candidate of election `name` under lease `lease`.
#[derive(Debug, PartialEq, Eq)]
pub struct CampaignRequest {
    pub name: Vec<u8>,
    pub value: Vec<u8>,
    pub lease: i64,
}

/// The server's answer once the campaign is granted leadership.
#[derive(Debug, PartialEq, Eq)]
pub struct CampaignResponse {
    pub leader: Option<LeaderKey>,
}

/// Asks for the mutually exclusive key of resource `name`.
#[derive(Debug, PartialEq, Eq)]
pub struct LockRequest {
    pub name: Vec<u8>,
}

/// The granted key, unique to this acquisition.
#[derive(Debug, PartialEq, Eq)]
pub struct LockResponse {
    pub key: Vec<u8>,
}

/// Gives a granted key back.
#[derive(Debug, PartialEq, Eq)]
pub struct UnlockRequest {
    pub key: Vec<u8>,
}

/// The server's answer to an unlock; nothing in it is used.
#[derive(Debug, PartialEq, Eq)]
pub struct UnlockResponse {}

} // verus!
