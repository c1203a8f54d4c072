use grpc::rt::GrpcStreaming;
use grpc::Client as GrpcClient;
use std::sync::Arc;
use vstd::prelude::*;

verus! {

/// The `grpc` crate's connection to a server, shared read-only by every
/// component; it is carried through, never inspected.
#[verifier::external_type_specification]
#[verifier::external_body]
pub struct ExGrpcClient(GrpcClient);

/// `grpc::rt::GrpcStreaming`: how a method streams its requests and
/// responses. Its four unit variants are read as the crate declares them.
#[verifier::external_type_specification]
pub struct ExGrpcStreaming(GrpcStreaming);

/// The full name of the lock service.
pub const LOCK_SERVICE_NAME: &'static str = "/v3lockpb.Lock";

/// The full name of the method that acquires a lock.
pub const LOCK_METHOD_NAME: &'static str = "/v3lockpb.Lock/Lock";

/// The full name of the method that releases a lock.
pub const UNLOCK_METHOD_NAME: &'static str = "/v3lockpb.Lock/Unlock";

/// A method of a service: its full name and how it streams.
pub struct MethodDescriptor {
    pub name: String,
    pub streaming: GrpcStreaming,
}

/// A service: its full name and its methods.
pub struct ServiceDefinition {
    pub name: String,
    pub methods: Vec<MethodDescriptor>,
}

/// The unary method named `name`.
fn unary_method(name: &str) -> (r: MethodDescriptor)
    ensures
        r.name@ == name@,
        r.streaming == GrpcStreaming::Unary,
{
    MethodDescriptor { name: name.to_owned(), streaming: GrpcStreaming::Unary }
}

/// A client of the lock service over a shared connection.
pub struct LockClient {
    grpc_client: Arc<GrpcClient>,
    method_lock: MethodDescriptor,
    method_unlock: MethodDescriptor,
}

impl LockClient {
    /// The method descriptor used to acquire a lock.
    pub closed spec fn lock_method_spec(&self) -> MethodDescriptor {
        self.method_lock
    }

    /// The method descriptor used to release a lock.
    pub closed spec fn unlock_method_spec(&self) -> MethodDescriptor {
        self.method_unlock
    }

    /// The connection the calls go over.
    pub closed spec fn client_spec(&self) -> Arc<GrpcClient> {
        self.grpc_client
    }

    /// A client whose calls go over `grpc_client`: `Lock` and `Unlock` of
    /// the lock service, both unary.
    pub fn with_client(grpc_client: Arc<GrpcClient>) -> (r: LockClient)
        ensures
            r.client_spec() == grpc_client,
            r.lock_method_spec().name@ == LOCK_METHOD_NAME@,
            r.lock_method_spec().streaming == GrpcStreaming::Unary,
            r.unlock_method_spec().name@ == UNLOCK_METHOD_NAME@,
            r.unlock_method_spec().streaming == GrpcStreaming::Unary,
    {
        LockClient {
            grpc_client,
            method_lock: unary_method(LOCK_METHOD_NAME),
            method_unlock: unary_method(UNLOCK_METHOD_NAME),
        }
    }

    pub fn client(&self) -> (r: &Arc<GrpcClient>)
        ensures
            *r == self.client_spec(),
    {
        &self.grpc_client
    }

    pub fn lock_method(&self) -> (r: &MethodDescriptor)
        ensures
            *r == self.lock_method_spec(),
    {
        &self.method_lock
    }

    pub fn unlock_method(&self) -> (r: &MethodDescriptor)
        ensures
            *r == self.unlock_method_spec(),
    {
        &self.method_unlock
    }
}

/// The server side of the lock service.
pub struct LockServer;

impl LockServer {
    /// The lock service with its two unary methods, `Lock` then `Unlock`.
    pub fn new_service_def() -> (r: ServiceDefinition)
        ensures
            r.name@ == LOCK_SERVICE_NAME@,
            r.methods@.len() == 2,
            r.methods@[0].name@ == LOCK_METHOD_NAME@,
            r.methods@[0].streaming == GrpcStreaming::Unary,
            r.methods@[1].name@ == UNLOCK_METHOD_NAME@,
            r.methods@[1].streaming == GrpcStreaming::Unary,
    {
        let mut methods: Vec<MethodDescriptor> = Vec::new();
        methods.push(unary_method(LOCK_METHOD_NAME));
        methods.push(unary_method(UNLOCK_METHOD_NAME));
        ServiceDefinition { name: LOCK_SERVICE_NAME.to_owned(), methods }
    }
}

} // verus!
