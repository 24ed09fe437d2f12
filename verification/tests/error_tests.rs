use yral_metadata::error::{ApiError, AuthError, Error, GrpcCode, StoreError};

#[test]
fn grpc_codes_follow_the_mapping_table() {
    assert_eq!(
        Error::Auth(AuthError::TokenMissing).grpc_code(),
        GrpcCode::Unauthenticated
    );
    assert_eq!(
        Error::Auth(AuthError::TokenInvalid).grpc_code(),
        GrpcCode::Unauthenticated
    );
    assert_eq!(
        Error::Auth(AuthError::TokenMalformed).grpc_code(),
        GrpcCode::InvalidArgument
    );
    assert_eq!(
        Error::Auth(AuthError::InvalidSignature).grpc_code(),
        GrpcCode::InvalidArgument
    );
    assert_eq!(
        Error::Store(StoreError::ConnectionFailure).grpc_code(),
        GrpcCode::Internal
    );
    assert_eq!(
        Error::Store(StoreError::OperationFailure).grpc_code(),
        GrpcCode::Internal
    );
    assert_eq!(Error::Serialization.grpc_code(), GrpcCode::InvalidArgument);
    assert_eq!(Error::InvalidPrincipal.grpc_code(), GrpcCode::InvalidArgument);
    assert_eq!(Error::MetadataMissing.grpc_code(), GrpcCode::InvalidArgument);
    assert_eq!(Error::BulkDelete(vec![]).grpc_code(), GrpcCode::Internal);
    assert_eq!(Error::Config.grpc_code(), GrpcCode::Internal);
    assert_eq!(Error::Io.grpc_code(), GrpcCode::Internal);
}

#[test]
fn api_errors_follow_the_mapping_table() {
    assert_eq!(
        Error::Auth(AuthError::TokenMissing).api_error(),
        ApiError::AuthTokenMissing
    );
    assert_eq!(
        Error::Auth(AuthError::TokenInvalid).api_error(),
        ApiError::AuthToken
    );
    assert_eq!(
        Error::Auth(AuthError::TokenMalformed).api_error(),
        ApiError::Jwt
    );
    assert_eq!(
        Error::Auth(AuthError::InvalidSignature).api_error(),
        ApiError::InvalidSignature
    );
    assert_eq!(
        Error::Store(StoreError::ConnectionFailure).api_error(),
        ApiError::Redis
    );
    assert_eq!(Error::Serialization.api_error(), ApiError::Deser);
    assert_eq!(
        Error::InvalidPrincipal.api_error(),
        ApiError::Unknown("internal".to_string())
    );
    assert_eq!(
        Error::MetadataMissing.api_error(),
        ApiError::Unknown("internal".to_string())
    );
    assert_eq!(Error::BulkDelete(vec![]).api_error(), ApiError::DeleteKeys);
    assert_eq!(
        Error::Config.api_error(),
        ApiError::Unknown("internal error, reported".to_string())
    );
    assert_eq!(
        Error::Io.api_error(),
        ApiError::Unknown("internal error, reported".to_string())
    );
}

#[test]
fn http_statuses_follow_the_mapping_table() {
    assert_eq!(Error::Auth(AuthError::TokenMissing).http_status(), 401);
    assert_eq!(Error::Auth(AuthError::TokenInvalid).http_status(), 401);
    assert_eq!(Error::Auth(AuthError::TokenMalformed).http_status(), 401);
    assert_eq!(Error::Auth(AuthError::InvalidSignature).http_status(), 401);
    assert_eq!(
        Error::Store(StoreError::OperationFailure).http_status(),
        500
    );
    assert_eq!(Error::Serialization.http_status(), 500);
    assert_eq!(Error::InvalidPrincipal.http_status(), 501);
    assert_eq!(Error::MetadataMissing.http_status(), 501);
    assert_eq!(Error::BulkDelete(vec![]).http_status(), 501);
    assert_eq!(Error::Config.http_status(), 500);
    assert_eq!(Error::Io.http_status(), 500);
}

#[test]
fn messages_are_stable() {
    assert_eq!(
        Error::Auth(AuthError::InvalidSignature).message(),
        "invalid signature provided"
    );
    assert_eq!(
        Error::Store(StoreError::ConnectionFailure).message(),
        "internal error: redis"
    );
    assert_eq!(Error::Auth(AuthError::TokenMissing).message(), "auth token missing");
    assert_eq!(Error::BulkDelete(vec![]).message(), "failed to delete keys (redis)");
}
