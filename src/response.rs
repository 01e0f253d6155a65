use vstd::prelude::*;

verus! {

/// The success envelope: a message, the data, and optional metadata pairs.
#[derive(Debug)]
pub struct ApiSuccessResponse<T> {
    pub message: String,
    pub data: T,
    pub metadata: Option<Vec<(String, String)>>,
}

impl<T> ApiSuccessResponse<T> {
    pub fn new(message: String, data: T, metadata: Option<Vec<(String, String)>>) -> (r: Self)
        ensures
            r.message == message,
            r.data == data,
            r.metadata == metadata,
    {
        ApiSuccessResponse { message, data, metadata }
    }
}

/// The success envelope of login and refresh. For browser callers it also
/// carries the refresh token and its expiry (epoch seconds) for the cookie.
#[derive(Debug)]
pub struct AuthLoginSuccessResponse<T> {
    pub message: String,
    pub data: T,
    pub metadata: Option<Vec<(String, String)>>,
    pub http_only_refresh_token: Option<(String, u64)>,
}

impl<T> AuthLoginSuccessResponse<T> {
    pub fn new(
        message: String,
        data: T,
        metadata: Option<Vec<(String, String)>>,
        http_only_refresh_token: Option<(String, u64)>,
    ) -> (r: Self)
        ensures
            r.message == message,
            r.data == data,
            r.metadata == metadata,
            r.http_only_refresh_token == http_only_refresh_token,
    {
        AuthLoginSuccessResponse { message, data, metadata, http_only_refresh_token }
    }
}

/// The logout envelope; its delivery also clears the refresh cookie.
#[derive(Debug)]
pub struct AuthLogoutSuccessResponse {
    pub message: String,
}

impl AuthLogoutSuccessResponse {
    pub fn new(message: String) -> (r: Self)
        ensures
            r.message == message,
    {
        AuthLogoutSuccessResponse { message }
    }
}

/// A CSV report, delivered as an attachment.
#[derive(Debug)]
pub struct SpmDownloadCsvSuccessResponse {
    pub data: Vec<u8>,
}

impl SpmDownloadCsvSuccessResponse {
    pub fn new(data: Vec<u8>) -> (r: Self)
        ensures
            r.data == data,
    {
        SpmDownloadCsvSuccessResponse { data }
    }
}

} // verus!
