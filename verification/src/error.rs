//! The unified error taxonomy and the per-endpoint mapping tables.
//!
//! Both front ends surface the same internal errors; each maps them to its
//! own wire representation.  The modern endpoint uses a status code and a
//! message, the legacy endpoint a JSON error envelope plus an HTTP status.

use vstd::prelude::*;

verus! {

broadcast use vstd::string::to_string_from_display_ensures_for_str;

/// Authentication failures, for both the per-write signature check and the
/// bearer-token check.
#[derive(Clone, Copy, Debug, PartialEq, Eq, Structural)]
pub enum AuthError {
    /// No bearer token was supplied at all.
    TokenMissing,
    /// The bearer token did not decode or its cryptographic check failed.
    TokenMalformed,
    /// The bearer token decoded but its claims did not match the expected ones.
    TokenInvalid,
    /// The per-write signature did not verify against the claimed principal.
    InvalidSignature,
}

/// Failures of the key-value backend, surfaced without retry.
#[derive(Clone, Copy, Debug, PartialEq, Eq, Structural)]
pub enum StoreError {
    /// Obtaining a connection from the pool failed.
    ConnectionFailure,
    /// The backend rejected or failed the operation itself.
    OperationFailure,
}

/// The internal error taxonomy shared by every component.
#[derive(Clone, Debug, PartialEq, Eq)]
pub enum Error {
    /// An authentication check failed.
    Auth(AuthError),
    /// A single backend operation failed.
    Store(StoreError),
    /// A stored record did not decode.
    Serialization,
    /// A supplied principal byte string was not a valid principal.
    InvalidPrincipal,
    /// A write request carried no metadata payload.
    MetadataMissing,
    /// A bulk delete partially failed; every failing key with its reason.
    BulkDelete(Vec<(Vec<u8>, StoreError)>),
    /// Startup configuration failure; fatal, never served to a caller.
    Config,
    /// An I/O failure outside the backend, e.g. while binding a listener.
    Io,
}

/// The legacy endpoint's wire-level error envelope.
#[derive(Clone, Debug, PartialEq, Eq)]
pub enum ApiError {
    InvalidSignature,
    Redis,
    Deser,
    Jwt,
    AuthToken,
    AuthTokenMissing,
    DeleteKeys,
    Unknown(String),
}

/// Spec-level shape of an `ApiError`; the `Unknown` payload as characters.
pub enum ApiErrorSpec {
    InvalidSignature,
    Redis,
    Deser,
    Jwt,
    AuthToken,
    AuthTokenMissing,
    DeleteKeys,
    Unknown(Seq<char>),
}

impl View for ApiError {
    type V = ApiErrorSpec;

    open spec fn view(&self) -> ApiErrorSpec {
        match self {
            ApiError::InvalidSignature => ApiErrorSpec::InvalidSignature,
            ApiError::Redis => ApiErrorSpec::Redis,
            ApiError::Deser => ApiErrorSpec::Deser,
            ApiError::Jwt => ApiErrorSpec::Jwt,
            ApiError::AuthToken => ApiErrorSpec::AuthToken,
            ApiError::AuthTokenMissing => ApiErrorSpec::AuthTokenMissing,
            ApiError::DeleteKeys => ApiErrorSpec::DeleteKeys,
            ApiError::Unknown(msg) => ApiErrorSpec::Unknown(msg@),
        }
    }
}

impl Error {
    /// The modern endpoint's status code for each internal error.
    ///
    /// Authentication token failures are unauthenticated; malformed input
    /// (bad signature, bad principal, undecodable payloads) is an invalid
    /// argument; backend and startup failures are internal.
    pub fn grpc_code(&self) -> (code: GrpcCode)
        ensures
            code == self.spec_grpc_code(),
    {
        match self {
            Error::Auth(AuthError::TokenMissing) => GrpcCode::Unauthenticated,
            Error::Auth(AuthError::TokenInvalid) => GrpcCode::Unauthenticated,
            Error::Auth(AuthError::TokenMalformed) => GrpcCode::InvalidArgument,
            Error::Auth(AuthError::InvalidSignature) => GrpcCode::InvalidArgument,
            Error::Store(_) => GrpcCode::Internal,
            Error::Serialization => GrpcCode::InvalidArgument,
            Error::InvalidPrincipal => GrpcCode::InvalidArgument,
            Error::MetadataMissing => GrpcCode::InvalidArgument,
            Error::BulkDelete(_) => GrpcCode::Internal,
            Error::Config => GrpcCode::Internal,
            Error::Io => GrpcCode::Internal,
        }
    }

    /// What `grpc_code` returns.
    pub open spec fn spec_grpc_code(&self) -> GrpcCode {
        match self {
            Error::Auth(AuthError::TokenMissing) => GrpcCode::Unauthenticated,
            Error::Auth(AuthError::TokenInvalid) => GrpcCode::Unauthenticated,
            Error::Auth(AuthError::TokenMalformed) => GrpcCode::InvalidArgument,
            Error::Auth(AuthError::InvalidSignature) => GrpcCode::InvalidArgument,
            Error::Store(_) => GrpcCode::Internal,
            Error::Serialization => GrpcCode::InvalidArgument,
            Error::InvalidPrincipal => GrpcCode::InvalidArgument,
            Error::MetadataMissing => GrpcCode::InvalidArgument,
            Error::BulkDelete(_) => GrpcCode::Internal,
            Error::Config => GrpcCode::Internal,
            Error::Io => GrpcCode::Internal,
        }
    }

    /// The client-facing message for each internal error.
    pub fn message(&self) -> (msg: &'static str)
        ensures
            msg@ == self.spec_message(),
    {
        match self {
            Error::Auth(AuthError::TokenMissing) => "auth token missing",
            Error::Auth(AuthError::TokenInvalid) => "auth token invalid",
            Error::Auth(AuthError::TokenMalformed) => "jwt error - invalid token",
            Error::Auth(AuthError::InvalidSignature) => "invalid signature provided",
            Error::Store(_) => "internal error: redis",
            Error::Serialization => "failed to deserialize json",
            Error::InvalidPrincipal => "invalid principal",
            Error::MetadataMissing => "metadata missing",
            Error::BulkDelete(_) => "failed to delete keys (redis)",
            Error::Config => "failed to load config",
            Error::Io => "internal error: IO",
        }
    }

    /// What `message` returns.
    pub open spec fn spec_message(&self) -> Seq<char> {
        match self {
            Error::Auth(AuthError::TokenMissing) => "auth token missing"@,
            Error::Auth(AuthError::TokenInvalid) => "auth token invalid"@,
            Error::Auth(AuthError::TokenMalformed) => "jwt error - invalid token"@,
            Error::Auth(AuthError::InvalidSignature) => "invalid signature provided"@,
            Error::Store(_) => "internal error: redis"@,
            Error::Serialization => "failed to deserialize json"@,
            Error::InvalidPrincipal => "invalid principal"@,
            Error::MetadataMissing => "metadata missing"@,
            Error::BulkDelete(_) => "failed to delete keys (redis)"@,
            Error::Config => "failed to load config"@,
            Error::Io => "internal error: IO"@,
        }
    }

    /// The legacy endpoint's error envelope for each internal error.
    ///
    /// Failures a caller cannot act on collapse into opaque variants;
    /// authentication and signature failures keep their identity.
    pub fn api_error(&self) -> (api: ApiError)
        ensures
            api@ == self.spec_api_error(),
    {
        match self {
            Error::Auth(AuthError::TokenMissing) => ApiError::AuthTokenMissing,
            Error::Auth(AuthError::TokenInvalid) => ApiError::AuthToken,
            Error::Auth(AuthError::TokenMalformed) => ApiError::Jwt,
            Error::Auth(AuthError::InvalidSignature) => ApiError::InvalidSignature,
            Error::Store(_) => ApiError::Redis,
            Error::Serialization => ApiError::Deser,
            Error::InvalidPrincipal => ApiError::Unknown("internal".to_string()),
            Error::MetadataMissing => ApiError::Unknown("internal".to_string()),
            Error::BulkDelete(_) => ApiError::DeleteKeys,
            Error::Config => ApiError::Unknown("internal error, reported".to_string()),
            Error::Io => ApiError::Unknown("internal error, reported".to_string()),
        }
    }

    /// What `api_error` returns, at the spec level.
    pub open spec fn spec_api_error(&self) -> ApiErrorSpec {
        match self {
            Error::Auth(AuthError::TokenMissing) => ApiErrorSpec::AuthTokenMissing,
            Error::Auth(AuthError::TokenInvalid) => ApiErrorSpec::AuthToken,
            Error::Auth(AuthError::TokenMalformed) => ApiErrorSpec::Jwt,
            Error::Auth(AuthError::InvalidSignature) => ApiErrorSpec::InvalidSignature,
            Error::Store(_) => ApiErrorSpec::Redis,
            Error::Serialization => ApiErrorSpec::Deser,
            Error::InvalidPrincipal => ApiErrorSpec::Unknown("internal"@),
            Error::MetadataMissing => ApiErrorSpec::Unknown("internal"@),
            Error::BulkDelete(_) => ApiErrorSpec::DeleteKeys,
            Error::Config => ApiErrorSpec::Unknown("internal error, reported"@),
            Error::Io => ApiErrorSpec::Unknown("internal error, reported"@),
        }
    }

    /// The legacy endpoint's HTTP status for each internal error.
    ///
    /// Authentication failures are 401; backend, serialization and startup
    /// failures are 500; errors that should never surface on this endpoint
    /// are 501.
    pub fn http_status(&self) -> (status: u16)
        ensures
            status == self.spec_http_status(),
    {
        match self {
            Error::Auth(_) => 401,
            Error::Store(_) => 500,
            Error::Serialization => 500,
            Error::InvalidPrincipal => 501,
            Error::MetadataMissing => 501,
            Error::BulkDelete(_) => 501,
            Error::Config => 500,
            Error::Io => 500,
        }
    }

    /// What `http_status` returns.
    pub open spec fn spec_http_status(&self) -> u16 {
        match self {
            Error::Auth(_) => 401u16,
            Error::Store(_) => 500u16,
            Error::Serialization => 500u16,
            Error::InvalidPrincipal => 501u16,
            Error::MetadataMissing => 501u16,
            Error::BulkDelete(_) => 501u16,
            Error::Config => 500u16,
            Error::Io => 500u16,
        }
    }
}

/// Status codes of the modern endpoint's wire protocol.
#[derive(Clone, Copy, Debug, PartialEq, Eq, Structural)]
pub enum GrpcCode {
    InvalidArgument,
    NotFound,
    Unauthenticated,
    Internal,
}

} // verus!
