use vstd::prelude::*;

verus! {

pub const STATUS_BAD_REQUEST: u16 = 400;
pub const STATUS_UNAUTHORIZED: u16 = 401;
pub const STATUS_FORBIDDEN: u16 = 403;
pub const STATUS_NOT_FOUND: u16 = 404;
pub const STATUS_INTERNAL: u16 = 500;

/// The error envelope: an HTTP status mirrored in the body, and a message.
#[derive(Debug, Clone)]
pub struct ApiErrorResponse {
    pub status: u16,
    pub message: String,
}

impl ApiErrorResponse {
    pub fn new(status: u16, message: String) -> (r: Self)
        ensures
            r.status == status,
            r.message@ == message@,
    {
        ApiErrorResponse { status, message }
    }
}

/// `r` is a failure with the given status.
pub open spec fn fails_with<T>(r: Result<T, ApiErrorResponse>, status: u16) -> bool {
    r matches Err(e) && e.status == status
}

/// A store, codec or hashing failure, passed through with its message.
pub fn internal_error(message: String) -> (r: ApiErrorResponse)
    ensures
        r.status == STATUS_INTERNAL,
        r.message@ == message@,
{
    ApiErrorResponse::new(STATUS_INTERNAL, message)
}

pub fn internal_server_error<E>(_err: E, message: &str) -> (r: ApiErrorResponse)
    ensures
        r.status == STATUS_INTERNAL,
        r.message@ == message@,
{
    ApiErrorResponse::new(STATUS_INTERNAL, message.to_owned())
}

pub fn invalid_credentials_error<E>(_err: E) -> (r: ApiErrorResponse)
    ensures
        r.status == STATUS_UNAUTHORIZED,
        r.message@ == "Invalid credentials"@,
{
    ApiErrorResponse::new(STATUS_UNAUTHORIZED, "Invalid credentials".to_owned())
}

pub fn access_denied_error<E>(_err: E) -> (r: ApiErrorResponse)
    ensures
        r.status == STATUS_FORBIDDEN,
        r.message@ == "access denied"@,
{
    ApiErrorResponse::new(STATUS_FORBIDDEN, "access denied".to_owned())
}

pub fn bad_request_error<E>(_err: E) -> (r: ApiErrorResponse)
    ensures
        r.status == STATUS_BAD_REQUEST,
        r.message@ == "bad request"@,
{
    ApiErrorResponse::new(STATUS_BAD_REQUEST, "bad request".to_owned())
}

pub fn not_found_error<E>(_err: E, message: &str) -> (r: ApiErrorResponse)
    ensures
        r.status == STATUS_NOT_FOUND,
        r.message@ == message@,
{
    ApiErrorResponse::new(STATUS_NOT_FOUND, message.to_owned())
}

pub fn http_error<E>(_err: E, status: u16, message: &str) -> (r: ApiErrorResponse)
    ensures
        r.status == status,
        r.message@ == message@,
{
    ApiErrorResponse::new(status, message.to_owned())
}

} // verus!
