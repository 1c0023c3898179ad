use vstd::prelude::*;

verus! {

/// Every failure the server can answer with. Variants that wrap an error of
/// another component carry that error's rendered text.
#[derive(Debug, Clone)]
pub enum ApiError {
    NotFound,
    MethodNotAllowed,
    Database(String),
    Query(String),
    Path(String),
    Json(String),
    Validation(String),
    Bcrypt(String),
    JWT(String),
    Unauthenticated(String),
    Biz(String),
    Internal(String),
    AnyhowError(String),
    Config(String),
    StdError(String),
    Io(String),
}

pub type ApiResult<T> = Result<T, ApiError>;

/// HTTP status codes used by the server.
pub const STATUS_OK: u16 = 200;
pub const STATUS_BAD_REQUEST: u16 = 400;
pub const STATUS_UNAUTHORIZED: u16 = 401;
pub const STATUS_NOT_FOUND: u16 = 404;
pub const STATUS_METHOD_NOT_ALLOWED: u16 = 405;
pub const STATUS_INTERNAL_SERVER_ERROR: u16 = 500;

/// The status an error is answered with.
pub open spec fn spec_status(e: ApiError) -> u16 {
    match e {
        ApiError::NotFound => 404,
        ApiError::MethodNotAllowed => 405,
        ApiError::Database(_)
        | ApiError::Bcrypt(_)
        | ApiError::Internal(_)
        | ApiError::AnyhowError(_)
        | ApiError::StdError(_)
        | ApiError::Io(_)
        | ApiError::Config(_) => 500,
        ApiError::Query(_) | ApiError::Path(_) | ApiError::Json(_) | ApiError::Validation(_) => 400,
        ApiError::JWT(_) | ApiError::Unauthenticated(_) => 401,
        ApiError::Biz(_) => 200,
    }
}

/// The text an error is rendered as.
pub open spec fn error_message(e: ApiError) -> Seq<char> {
    match e {
        ApiError::NotFound => "Server not found"@,
        ApiError::MethodNotAllowed => "Method not allowed"@,
        ApiError::Database(m) => "Database error: "@ + m@,
        ApiError::Query(m) => "Query parameter error: "@ + m@,
        ApiError::Path(m) => "Path parameter error: "@ + m@,
        ApiError::Json(m) => "Body parameter error: "@ + m@,
        ApiError::Validation(m) => "Validation failed: "@ + m@,
        ApiError::Bcrypt(m) => "Password hash error: "@ + m@,
        ApiError::JWT(m) => "JWT error: "@ + m@,
        ApiError::Unauthenticated(m) => "Unauthenticated: "@ + m@,
        ApiError::Biz(m) => m@,
        ApiError::Internal(m) => "Internal server error: "@ + m@,
        ApiError::AnyhowError(m) => "Anyhow error: "@ + m@,
        ApiError::Config(m) => "Configuration error: "@ + m@,
        ApiError::StdError(m) => "Std error: "@ + m@,
        ApiError::Io(m) => "IO error: "@ + m@,
    }
}

fn prefixed(prefix: &str, m: &String) -> (r: String)
    ensures
        r@ == prefix@ + m@,
{
    let mut s = String::from_str(prefix);
    s.append(m.as_str());
    s
}

impl ApiError {
    /// The HTTP status this error is answered with.
    pub fn status_code(&self) -> (r: u16)
        ensures
            r == spec_status(*self),
    {
        match self {
            ApiError::NotFound => STATUS_NOT_FOUND,
            ApiError::MethodNotAllowed => STATUS_METHOD_NOT_ALLOWED,
            ApiError::Database(_)
            | ApiError::Bcrypt(_)
            | ApiError::Internal(_)
            | ApiError::AnyhowError(_)
            | ApiError::StdError(_)
            | ApiError::Io(_)
            | ApiError::Config(_) => STATUS_INTERNAL_SERVER_ERROR,
            ApiError::Query(_) | ApiError::Path(_) | ApiError::Json(_) | ApiError::Validation(_) => {
                STATUS_BAD_REQUEST
            },
            ApiError::JWT(_) | ApiError::Unauthenticated(_) => STATUS_UNAUTHORIZED,
            ApiError::Biz(_) => STATUS_OK,
        }
    }

    /// The text of this error, as shown to the client.
    pub fn message(&self) -> (r: String)
        ensures
            r@ == error_message(*self),
    {
        match self {
            ApiError::NotFound => String::from_str("Server not found"),
            ApiError::MethodNotAllowed => String::from_str("Method not allowed"),
            ApiError::Database(m) => prefixed("Database error: ", m),
            ApiError::Query(m) => prefixed("Query parameter error: ", m),
            ApiError::Path(m) => prefixed("Path parameter error: ", m),
            ApiError::Json(m) => prefixed("Body parameter error: ", m),
            ApiError::Validation(m) => prefixed("Validation failed: ", m),
            ApiError::Bcrypt(m) => prefixed("Password hash error: ", m),
            ApiError::JWT(m) => prefixed("JWT error: ", m),
            ApiError::Unauthenticated(m) => prefixed("Unauthenticated: ", m),
            ApiError::Biz(m) => m.clone(),
            ApiError::Internal(m) => prefixed("Internal server error: ", m),
            ApiError::AnyhowError(m) => prefixed("Anyhow error: ", m),
            ApiError::Config(m) => prefixed("Configuration error: ", m),
            ApiError::StdError(m) => prefixed("Std error: ", m),
            ApiError::Io(m) => prefixed("IO error: ", m),
        }
    }
}

/// Every error is answered with one of six statuses, and a business refusal
/// is the only error answered with 200.
pub proof fn lemma_status_classes(e: ApiError)
    ensures
        spec_status(e) == 200 || spec_status(e) == 400 || spec_status(e) == 401
            || spec_status(e) == 404 || spec_status(e) == 405 || spec_status(e) == 500,
        spec_status(e) == 200 <==> e is Biz,
        spec_status(e) == 401 <==> (e is JWT || e is Unauthenticated),
{
}

} // verus!
