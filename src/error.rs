use vstd::prelude::*;
use vstd::string::StringExecFns;

verus! {

/// True for the status codes of the 2xx (success) class.
pub open spec fn is_success_status(code: u16) -> bool {
    200 <= code && code < 300
}

/// The uniform envelope of a response: a status, whether it succeeded, a message
/// and optional data.
pub struct ApiResponse<T> {
    pub status_code: u16,
    pub success: bool,
    pub message: String,
    pub data: Option<T>,
}

impl<T> ApiResponse<T> {
    /// `success` agrees with the class of `status_code`.
    pub open spec fn wf(&self) -> bool {
        self.success == is_success_status(self.status_code)
    }

    /// An envelope whose `success` flag is derived from the status code.
    pub fn new(status_code: u16, message: String, data: Option<T>) -> (r: Self)
        ensures
            r.wf(),
            r.status_code == status_code,
            r.message@ == message@,
            r.data == data,
    {
        let success = 200 <= status_code && status_code < 300;
        ApiResponse { status_code, success, message, data }
    }

    /// An envelope for a failed outcome: no data, `success` false.
    pub fn failure(status_code: u16, message: String) -> (r: Self)
        requires
            !is_success_status(status_code),
        ensures
            r.wf(),
            r.status_code == status_code,
            !r.success,
            r.message@ == message@,
            r.data is None,
    {
        ApiResponse::new(status_code, message, None)
    }
}

/// The closed set of application failures a handler can report, each with a
/// fixed description.
pub enum AppError {
    Generic(&'static str),
    InvalidInput(&'static str),
    DatabaseError(&'static str),
    NetworkError(&'static str),
    AuthenticationError(&'static str),
    AuthorizationError(&'static str),
}

/// A status code with the envelope that goes in the response body.
pub struct ErrorResponse {
    pub status: u16,
    pub body: ApiResponse<()>,
}

impl AppError {
    /// The HTTP status each kind of failure is reported with.
    pub open spec fn spec_status(&self) -> u16 {
        match self {
            AppError::Generic(_) => 500,
            AppError::InvalidInput(_) => 400,
            AppError::DatabaseError(_) => 500,
            AppError::NetworkError(_) => 503,
            AppError::AuthenticationError(_) => 401,
            AppError::AuthorizationError(_) => 403,
        }
    }

    /// The description carried by the failure.
    pub open spec fn spec_detail(&self) -> Seq<char> {
        match self {
            AppError::Generic(d) => d@,
            AppError::InvalidInput(d) => d@,
            AppError::DatabaseError(d) => d@,
            AppError::NetworkError(d) => d@,
            AppError::AuthenticationError(d) => d@,
            AppError::AuthorizationError(d) => d@,
        }
    }

    /// The text that introduces the description of each kind of failure.
    pub open spec fn spec_prefix(&self) -> Seq<char> {
        match self {
            AppError::Generic(_) => "An error occurred: "@,
            AppError::InvalidInput(_) => "Invalid input: "@,
            AppError::DatabaseError(_) => "Database error: "@,
            AppError::NetworkError(_) => "Network error: "@,
            AppError::AuthenticationError(_) => "Authentication failed: "@,
            AppError::AuthorizationError(_) => "Authorization failed: "@,
        }
    }

    /// The human-readable message: the kind's prefix followed by the description.
    pub open spec fn spec_message(&self) -> Seq<char> {
        self.spec_prefix() + self.spec_detail()
    }

    pub fn status_code(&self) -> (r: u16)
        ensures
            r == self.spec_status(),
            !is_success_status(r),
    {
        match self {
            AppError::Generic(_) => 500,
            AppError::InvalidInput(_) => 400,
            AppError::DatabaseError(_) => 500,
            AppError::NetworkError(_) => 503,
            AppError::AuthenticationError(_) => 401,
            AppError::AuthorizationError(_) => 403,
        }
    }

    pub fn detail(&self) -> (r: &'static str)
        ensures
            r@ == self.spec_detail(),
    {
        match self {
            AppError::Generic(d) => d,
            AppError::InvalidInput(d) => d,
            AppError::DatabaseError(d) => d,
            AppError::NetworkError(d) => d,
            AppError::AuthenticationError(d) => d,
            AppError::AuthorizationError(d) => d,
        }
    }

    /// The message shown to clients, e.g. `Invalid input: missing name`.
    pub fn message(&self) -> (r: String)
        ensures
            r@ == self.spec_message(),
    {
        let prefix: &str = match self {
            AppError::Generic(_) => "An error occurred: ",
            AppError::InvalidInput(_) => "Invalid input: ",
            AppError::DatabaseError(_) => "Database error: ",
            AppError::NetworkError(_) => "Network error: ",
            AppError::AuthenticationError(_) => "Authentication failed: ",
            AppError::AuthorizationError(_) => "Authorization failed: ",
        };
        let mut r = String::from_str(prefix);
        r.append(self.detail());
        r
    }

    /// Turns the failure into its status and a failed envelope without data.
    pub fn into_response(self) -> (r: ErrorResponse)
        ensures
            r.status == self.spec_status(),
            r.body.wf(),
            r.body.status_code == r.status,
            !r.body.success,
            r.body.message@ == self.spec_message(),
            r.body.data is None,
    {
        let status = self.status_code();
        let body = ApiResponse::<()>::failure(status, self.message());
        ErrorResponse { status, body }
    }
}

} // verus!
