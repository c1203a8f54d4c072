use grpc::Error as GrpcError;
use vstd::prelude::*;

verus! {

/// The transport error of the `grpc` crate, carried through unchanged.
#[verifier::external_type_specification]
#[verifier::external_body]
pub struct ExGrpcError(GrpcError);

/// Failures surfaced by one-shot operations (acquiring a lease or a lock).
#[derive(Debug)]
pub enum Error {
    /// The call or stream failed below this layer.
    Grpc(GrpcError),
    /// The server answered, but rejected the request with this message.
    Unrecoverable(String),
}

impl From<GrpcError> for Error {
    fn from(rpc_error: GrpcError) -> (r: Error) {
        Error::Grpc(rpc_error)
    }
}

impl vstd::std_specs::convert::FromSpecImpl<GrpcError> for Error {
    open spec fn obeys_from_spec() -> bool {
        true
    }

    open spec fn from_spec(rpc_error: GrpcError) -> Error {
        Error::Grpc(rpc_error)
    }
}

} // verus!
