use etcd_concurrency::{
    Error, Lease, LeaseGrantRequest, LeaseGrantResponse, LeaseKeepAliveRequest,
    LeaseRevokeRequest, LeaseRevokeResponse, Lock, LockRequest, LockResponse, LockServer,
    UnlockRequest, UnlockResponse,
};
use std::rc::Rc;

#[test]
fn lease_reflects_granted_ttl_not_requested() {
    let request = Lease::grant_request(0, 30);
    assert_eq!(request, LeaseGrantRequest { id: 0, ttl: 30 });
    let lease = Lease::new(Ok(LeaseGrantResponse { id: 1234, ttl: 25, error: String::new() }))
        .unwrap();
    assert_eq!(lease.lease_id, 1234);
    assert_eq!(lease.ttl, 25);
}

#[test]
fn grant_request_carries_requested_id() {
    assert_eq!(Lease::grant_request(4242, 45), LeaseGrantRequest { id: 4242, ttl: 45 });
}

#[test]
fn lease_refusal_is_unrecoverable() {
    let r = Lease::new(Ok(LeaseGrantResponse { id: 0, ttl: 0, error: "no quota".to_string() }));
    match r {
        Err(Error::Unrecoverable(message)) => assert_eq!(message, "no quota"),
        other => panic!("unexpected {:?}", other),
    }
}

#[test]
fn lease_transport_failure_is_grpc() {
    let r = Lease::new(Err(grpc::Error::Other("connection refused")));
    assert!(matches!(r, Err(Error::Grpc(grpc::Error::Other("connection refused")))));
}

#[test]
fn lease_requests_carry_its_identifier() {
    let lease = Lease { lease_id: 88, ttl: 10 };
    assert_eq!(lease.keep_alive_request(), LeaseKeepAliveRequest { id: 88 });
    assert_eq!(lease.revoke_request(), LeaseRevokeRequest { id: 88 });
}

#[test]
fn lease_teardown_completes_when_revoke_fails() {
    assert!(Lease::finish_release(Ok(LeaseRevokeResponse {})).is_none());
    let failed = Lease::finish_release(Err(grpc::Error::Other("timeout")));
    assert!(matches!(failed, Some(Error::Grpc(grpc::Error::Other("timeout")))));
}

#[test]
fn lock_holds_granted_key_under_shared_lease() {
    let lease = Rc::new(Lease { lease_id: 3, ttl: 60 });
    assert_eq!(Lock::lock_request(b"printer".to_vec()), LockRequest { name: b"printer".to_vec() });
    let first = Lock::new(lease.clone(), Ok(LockResponse { key: b"printer/1".to_vec() })).unwrap();
    let second = Lock::new(lease.clone(), Ok(LockResponse { key: b"printer/2".to_vec() })).unwrap();
    assert_eq!(first.key, b"printer/1".to_vec());
    assert_eq!(second.key, b"printer/2".to_vec());
    assert_eq!(**first.held_under(), Lease { lease_id: 3, ttl: 60 });
    assert!(Rc::ptr_eq(first.held_under(), second.held_under()));
    assert!(Rc::ptr_eq(&first.lease, &lease));
    assert_eq!(first.unlock_request(), UnlockRequest { key: b"printer/1".to_vec() });
}

#[test]
fn lock_transport_failure_is_grpc() {
    let lease = Rc::new(Lease { lease_id: 3, ttl: 60 });
    let r = Lock::new(lease, Err(grpc::Error::Other("unavailable")));
    assert!(matches!(r, Err(Error::Grpc(grpc::Error::Other("unavailable")))));
}

#[test]
fn lock_teardown_completes_when_unlock_fails() {
    assert!(Lock::finish_release(Ok(UnlockResponse {})).is_none());
    let failed = Lock::finish_release(Err(grpc::Error::Other("timeout")));
    assert!(matches!(failed, Some(Error::Grpc(grpc::Error::Other("timeout")))));
}

#[test]
fn lock_service_definition_has_two_unary_methods() {
    let def = LockServer::new_service_def();
    assert_eq!(def.name, "/v3lockpb.Lock");
    assert_eq!(def.methods.len(), 2);
    assert_eq!(def.methods[0].name, "/v3lockpb.Lock/Lock");
    assert_eq!(def.methods[1].name, "/v3lockpb.Lock/Unlock");
    for m in &def.methods {
        assert!(matches!(m.streaming, grpc::rt::GrpcStreaming::Unary));
    }
}
