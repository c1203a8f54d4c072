use crate::errors::Error;
use crate::lease::Lease;
use crate::messages::{LockRequest, LockResponse, UnlockRequest, UnlockResponse};
use grpc::Error as GrpcError;
use std::rc::Rc;
use vstd::prelude::*;

verus! {

/// A mutually exclusive key held under a lease that other holders may share.
pub struct Lock {
    pub key: Vec<u8>,
    pub lease: Rc<Lease>,
}

impl Lock {
    /// The request that asks for the key of resource `name`.
    pub fn lock_request(name: Vec<u8>) -> (r: LockRequest)
        ensures
            r.name@ == name@,
    {
        LockRequest { name }
    }

    /// Completes an acquisition under `lease` from the server's reply to
    /// `lock_request`: the granted key, or the transport error.
    pub fn new(lease: Rc<Lease>, reply: Result<LockResponse, GrpcError>) -> (r: Result<Lock, Error>)
        ensures
            reply matches Err(e) ==> r matches Err(Error::Grpc(f)) && f == e,
            reply matches Ok(response) ==> r matches Ok(lock) && lock.held_key() == response.key@
                && *lock.lease() == *lease,
    {
        match reply {
            Err(e) => Err(Error::from(e)),
            Ok(response) => Ok(Lock { key: response.key, lease }),
        }
    }

    /// The key this lock holds.
    pub open spec fn held_key(&self) -> Seq<u8> {
        self.key@
    }

    /// The lease this lock is held under.
    pub open spec fn lease(&self) -> Rc<Lease> {
        self.lease
    }

    pub fn held_under(&self) -> (r: &Rc<Lease>)
        ensures
            *r == self.lease(),
    {
        &self.lease
    }

    /// The request that gives the key back when the lock's scope ends.
    pub fn unlock_request(&self) -> (r: UnlockRequest)
        ensures
            r.key@ == self.held_key(),
    {
        UnlockRequest { key: self.key.clone() }
    }

    /// Ends teardown whatever the unlock call returned: a failure is handed
    /// back to be logged and is never raised, so teardown always completes.
    pub fn finish_release(outcome: Result<UnlockResponse, GrpcError>) -> (r: Option<Error>)
        ensures
            outcome.is_ok() ==> r.is_none(),
            outcome matches Err(e) ==> r == Some(Error::Grpc(e)),
    {
        match outcome {
            Ok(_) => None,
            Err(e) => Some(Error::from(e)),
        }
    }
}

} // verus!
