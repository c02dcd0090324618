//! The WhispHub HTTP API as the client sees it: the response shapes, the
//! endpoint addresses and how a response status turns into an error.

use vstd::prelude::*;
use vstd::string::StringExecFns;

verus! {

/// The answer to starting the device login flow.
#[derive(Debug)]
pub struct CliAuthInitResponse {
    pub code: String,
    pub device_code: String,
    pub verification_uri: String,
    pub expires_in: u64,
    pub interval: u64,
}

/// The answer to one poll of the device login flow.
#[derive(Debug)]
pub struct CliAuthPollResponse {
    pub status: String,
    pub token: Option<String>,
    pub user: Option<CliAuthUser>,
}

/// The user that approved a device login.
#[derive(Debug)]
pub struct CliAuthUser {
    pub id: String,
    pub username: String,
}

/// The answer of the "who am I" endpoint.
#[derive(Debug)]
pub struct MeResponse {
    pub username: String,
    pub email: String,
}

/// A project as the server describes it after creating it.
#[derive(Debug)]
pub struct ProjectSummary {
    pub id: String,
    pub slug: String,
    pub title: String,
    pub author_username: String,
}

/// The answer to a zip upload.
#[derive(Debug)]
pub struct ZipUploadResponse {
    pub imported_count: usize,
}

/// The body of a refused request, as far as the client reads it:
/// `{"error": {"message": ".."}}`.
#[derive(Debug)]
pub struct ErrorEnvelope {
    pub error: Option<ErrorDetail>,
}

/// The `error` object of a refused request.
#[derive(Debug)]
pub struct ErrorDetail {
    pub message: Option<String>,
}

/// The message a parsed error body carries, if it carries one.
pub open spec fn envelope_message(parsed: Option<ErrorEnvelope>) -> Option<Seq<char>> {
    match parsed {
        Some(env) => match env.error {
            Some(detail) => match detail.message {
                Some(m) => Some(m@),
                None => None,
            },
            None => None,
        },
        None => None,
    }
}

/// The message of a refused request's body: the `error.message` string of the
/// body when it parsed as an error envelope, else none.
pub fn server_message(parsed: Option<ErrorEnvelope>) -> (r: Option<String>)
    ensures
        envelope_message(parsed) is None ==> r is None,
        envelope_message(parsed) is Some ==> r is Some && r->0@ == envelope_message(parsed)->0,
{
    match parsed {
        Some(env) => match env.error {
            Some(detail) => detail.message,
            None => None,
        },
        None => None,
    }
}

/// A failed request, as far as the status and the body of the response tell.
#[derive(Debug)]
pub enum ApiError {
    /// Starting the device flow was refused.
    InitFailed { status: u16 },
    /// A poll of the device flow was refused.
    PollFailed { message: String, status: u16 },
    /// The token was not accepted.
    AuthCheckFailed { status: u16 },
    /// Creating the project was refused.
    CreateProjectFailed { message: String },
    /// The upload was refused.
    UploadFailed { message: String, status: u16 },
}

/// The server used when no other address is configured.
pub const DEFAULT_BASE: &'static str = "https://whisphub.dev";

/// The message used when a refused poll explains nothing.
pub const UNKNOWN_ERROR: &'static str = "unknown error";

/// Whether an HTTP status reports success (2xx).
pub open spec fn success_status(status: u16) -> bool {
    200 <= status < 300
}

/// `a` followed by `b`.
pub fn concat(a: &str, b: &str) -> (r: String)
    ensures
        r@ == a@ + b@,
{
    let mut r = String::from_str(a);
    r.append(b);
    r
}

/// The server address: the configured one if there is one, else the default.
pub fn base_or_default(configured: Option<String>) -> (r: String)
    ensures
        match configured {
            Some(c) => r@ == c@,
            None => r@ == DEFAULT_BASE@,
        },
{
    match configured {
        Some(c) => c,
        None => String::from_str(DEFAULT_BASE),
    }
}

/// Whether an HTTP status reports success (2xx).
pub fn is_success(status: u16) -> (r: bool)
    ensures
        r == success_status(status),
{
    200 <= status && status < 300
}

/// The address that starts the device login flow.
pub fn auth_init_url(base: &str) -> (r: String)
    ensures
        r@ == base@ + "/api/cli/auth/init"@,
{
    concat(base, "/api/cli/auth/init")
}

/// The address polled during the device login flow.
pub fn auth_poll_url(base: &str) -> (r: String)
    ensures
        r@ == base@ + "/api/cli/auth/poll"@,
{
    concat(base, "/api/cli/auth/poll")
}

/// The address that tells who owns a token.
pub fn me_url(base: &str) -> (r: String)
    ensures
        r@ == base@ + "/api/auth/me"@,
{
    concat(base, "/api/auth/me")
}

/// The address that creates projects.
pub fn projects_url(base: &str) -> (r: String)
    ensures
        r@ == base@ + "/api/projects"@,
{
    concat(base, "/api/projects")
}

/// The address that takes a zip of a project's files.
pub fn zip_upload_url(base: &str, project_id: &str) -> (r: String)
    ensures
        r@ == base@ + "/api/projects/"@ + project_id@ + "/files/zip"@,
{
    let mut r = concat(base, "/api/projects/");
    r.append(project_id);
    r.append("/files/zip");
    r
}

/// The public page of a project: `<frontend>/<username>/<slug>`.
pub fn project_page_url(frontend: &str, username: &str, slug: &str) -> (r: String)
    ensures
        r@ == frontend@ + "/"@ + username@ + "/"@ + slug@,
{
    let mut r = concat(frontend, "/");
    r.append(username);
    r.append("/");
    r.append(slug);
    r
}

/// The message of a refused request: the one the server gave in its error body
/// if any, else `fallback`.
pub fn refusal_message(server_message: Option<String>, fallback: &str) -> (r: String)
    ensures
        match server_message {
            Some(m) => r@ == m@,
            None => r@ == fallback@,
        },
{
    match server_message {
        Some(m) => m,
        None => String::from_str(fallback),
    }
}

/// The outcome of starting the device flow, by response status.
pub fn check_init_status(status: u16) -> (r: Result<(), ApiError>)
    ensures
        success_status(status) <==> r is Ok,
        r matches Err(e) ==> e == (ApiError::InitFailed { status }),
{
    if is_success(status) {
        Ok(())
    } else {
        Err(ApiError::InitFailed { status })
    }
}

/// The outcome of a poll, by response status; a refusal carries the server's
/// message, or "unknown error".
pub fn check_poll_status(status: u16, server_message: Option<String>) -> (r: Result<(), ApiError>)
    ensures
        success_status(status) <==> r is Ok,
        r matches Err(e) ==> e matches ApiError::PollFailed { message, status: s } && s == status
            && match server_message {
                Some(m) => message@ == m@,
                None => message@ == UNKNOWN_ERROR@,
            },
{
    if is_success(status) {
        Ok(())
    } else {
        Err(ApiError::PollFailed { message: refusal_message(server_message, UNKNOWN_ERROR), status })
    }
}

/// The outcome of checking a token, by response status.
pub fn check_me_status(status: u16) -> (r: Result<(), ApiError>)
    ensures
        success_status(status) <==> r is Ok,
        r matches Err(e) ==> e == (ApiError::AuthCheckFailed { status }),
{
    if is_success(status) {
        Ok(())
    } else {
        Err(ApiError::AuthCheckFailed { status })
    }
}

/// The outcome of creating a project, by response status; a refusal carries
/// the server's message, or else the whole response body.
pub fn check_create_status(status: u16, server_message: Option<String>, body: &str) -> (r: Result<(), ApiError>)
    ensures
        success_status(status) <==> r is Ok,
        r matches Err(e) ==> e matches ApiError::CreateProjectFailed { message }
            && match server_message {
                Some(m) => message@ == m@,
                None => message@ == body@,
            },
{
    if is_success(status) {
        Ok(())
    } else {
        Err(ApiError::CreateProjectFailed { message: refusal_message(server_message, body) })
    }
}

/// The outcome of an upload, by response status; a refusal carries the
/// server's message, or else the whole response body, and the status.
pub fn check_upload_status(status: u16, server_message: Option<String>, body: &str) -> (r: Result<(), ApiError>)
    ensures
        success_status(status) <==> r is Ok,
        r matches Err(e) ==> e matches ApiError::UploadFailed { message, status: s } && s == status
            && match server_message {
                Some(m) => message@ == m@,
                None => message@ == body@,
            },
{
    if is_success(status) {
        Ok(())
    } else {
        Err(ApiError::UploadFailed { message: refusal_message(server_message, body), status })
    }
}

} // verus!
