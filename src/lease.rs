use crate::errors::Error;
use crate::messages::{
    LeaseGrantRequest, LeaseGrantResponse, LeaseKeepAliveRequest, LeaseRevokeRequest,
    LeaseRevokeResponse,
};
use grpc::Error as GrpcError;
use vstd::prelude::*;

verus! {

/// A server-granted, time-bound token: live until revoked or expired.
#[derive(Clone, Copy, Debug, PartialEq, Eq)]
pub struct Lease {
    pub lease_id: i64,
    pub ttl: i64,
}

/// What acquiring a lease yields for a grant reply: the transport error, the
/// server's refusal, or the lease with the identifier and TTL the server chose.
pub open spec fn lease_from_reply(reply: Result<LeaseGrantResponse, GrpcError>) -> Result<
    Lease,
    Error,
> {
    match reply {
        Err(e) => Err(Error::Grpc(e)),
        Ok(response) => if response.error@.len() > 0 {
            Err(Error::Unrecoverable(response.error))
        } else {
            Ok(Lease { lease_id: response.id, ttl: response.ttl })
        },
    }
}

impl Lease {
    /// The grant request for lease `lease_id` of `ttl` seconds; a `lease_id`
    /// of 0 leaves the identifier to the server.
    pub fn grant_request(lease_id: i64, ttl: i64) -> (r: LeaseGrantRequest)
        ensures
            r.id == lease_id,
            r.ttl == ttl,
    {
        LeaseGrantRequest { id: lease_id, ttl }
    }

    /// Completes an acquisition from the server's reply to `grant_request`.
    pub fn new(reply: Result<LeaseGrantResponse, GrpcError>) -> (r: Result<Lease, Error>)
        ensures
            r == lease_from_reply(reply),
    {
        match reply {
            Err(e) => Err(Error::from(e)),
            Ok(response) => {
                if !response.error.as_str().is_empty() {
                    Err(Error::Unrecoverable(response.error))
                } else {
                    Ok(Lease { lease_id: response.id, ttl: response.ttl })
                }
            },
        }
    }

    /// The renewal that the keep-alive stream carries for this lease.
    pub fn keep_alive_request(&self) -> (r: LeaseKeepAliveRequest)
        ensures
            r.id == self.lease_id,
    {
        LeaseKeepAliveRequest { id: self.lease_id }
    }

    /// The request that revokes this lease when its scope ends.
    pub fn revoke_request(&self) -> (r: LeaseRevokeRequest)
        ensures
            r.id == self.lease_id,
    {
        LeaseRevokeRequest { id: self.lease_id }
    }

    /// Ends teardown whatever the revoke call returned: a failure is handed
    /// back to be logged and is never raised, so teardown always completes.
    pub fn finish_release(outcome: Result<LeaseRevokeResponse, GrpcError>) -> (r: Option<Error>)
        ensures
            outcome.is_ok() ==> r.is_none(),
            outcome matches Err(e) ==> r == Some(Error::Grpc(e)),
    {
        match outcome {
            Ok(_) => None,
            Err(e) => Some(Error::from(e)),
        }
    }
}

} // verus!
