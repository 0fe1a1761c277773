//! Errors of the store, service and HTTP layers, and how each maps onto the
//! next: store failures are wrapped, and nothing a client sees tells why an
//! authentication failed.
use vstd::prelude::*;
use vstd::string::*;

verus! {

/// A failure of a store.
#[derive(Debug)]
pub enum RepositoryError {
    /// The store itself failed (for instance a duplicate key).
    Database(String),
    /// No record with the given property was found.
    NotFound { entity: String, property: String, value: String },
    /// An argument lay outside what the store accepts.
    ArgumentOutOfRange { field: String, value: String },
}

/// A failure of the service layer.
#[derive(Debug)]
pub enum ServiceError {
    Unauthorized(String),
    InvalidUsernameOrPassword,
    AccountLocked,
    Forbidden(String),
    BadRequest(String),
    Repository(RepositoryError),
    NotFound { entity: String, property: String, value: String },
    Internal(String),
}

/// A failure at the HTTP boundary; each variant has one status code.
#[derive(Debug)]
pub enum ApiError {
    NotFound { entity: String, property: String, value: String },
    BadRequest(String),
    /// The reason is for the server's log only.
    Unauthorized { reason: String },
    /// The reason is for the server's log only.
    Forbidden { reason: String },
    Internal(String),
}

/// The body sent to a client for a failed request.
#[derive(Debug)]
pub struct ErrorResponse {
    pub error: String,
}

pub open spec fn not_found_text(entity: Seq<char>, property: Seq<char>, value: Seq<char>) -> Seq<char> {
    entity + " with "@ + property + " "@ + value + " not found"@
}

/// The text of a store failure.
pub open spec fn repository_message(e: RepositoryError) -> Seq<char> {
    match e {
        RepositoryError::Database(m) => "database error: "@ + m@,
        RepositoryError::NotFound { entity, property, value } => not_found_text(
            entity@,
            property@,
            value@,
        ),
        RepositoryError::ArgumentOutOfRange { field, value } => "argument out of range: "@ + field@
            + " with value `"@ + value@ + "` is not allowed"@,
    }
}

/// What a client is told of an error: nothing of why an authentication or
/// an internal operation failed.
pub open spec fn public_message_of(e: ApiError) -> Seq<char> {
    match e {
        ApiError::Internal(_) => "An internal server error occurred"@,
        ApiError::Unauthorized { .. } => "Unauthorized"@,
        ApiError::Forbidden { .. } => "Forbidden"@,
        ApiError::NotFound { entity, property, value } => "NotFound: "@ + not_found_text(
            entity@,
            property@,
            value@,
        ),
        ApiError::BadRequest(m) => "Bad Request: "@ + m@,
    }
}

/// The HTTP status code of each error.
pub open spec fn status_of(e: ApiError) -> u16 {
    match e {
        ApiError::Internal(_) => 500,
        ApiError::NotFound { .. } => 404,
        ApiError::BadRequest(_) => 400,
        ApiError::Unauthorized { .. } => 401,
        ApiError::Forbidden { .. } => 403,
    }
}

fn not_found_message(entity: &String, property: &String, value: &String) -> (r: String)
    ensures
        r@ == not_found_text(entity@, property@, value@),
{
    let mut r = entity.clone();
    r.append(" with ");
    r.append(property.as_str());
    r.append(" ");
    r.append(value.as_str());
    r.append(" not found");
    r
}

impl RepositoryError {
    /// The text of this failure, as it appears in the server's log.
    pub fn message(&self) -> (r: String)
        ensures
            r@ == repository_message(*self),
    {
        match self {
            RepositoryError::Database(m) => {
                let mut r = String::from_str("database error: ");
                r.append(m.as_str());
                r
            },
            RepositoryError::NotFound { entity, property, value } => not_found_message(
                entity,
                property,
                value,
            ),
            RepositoryError::ArgumentOutOfRange { field, value } => {
                let mut r = String::from_str("argument out of range: ");
                r.append(field.as_str());
                r.append(" with value `");
                r.append(value.as_str());
                r.append("` is not allowed");
                r
            },
        }
    }
}

impl ApiError {
    /// Maps a service failure onto the HTTP boundary. Wrong credentials and
    /// a locked account both become `Unauthorized`; a store failure becomes
    /// `Internal`, but for a missing record or an argument out of range.
    pub fn from_service_error(err: ServiceError) -> (r: ApiError)
        ensures
            match err {
                ServiceError::Unauthorized(reason) => r == ApiError::Unauthorized { reason },
                ServiceError::InvalidUsernameOrPassword => r matches ApiError::Unauthorized {
                    reason,
                } && reason@ == "invalid username or password"@,
                ServiceError::AccountLocked => r matches ApiError::Unauthorized { reason }
                    && reason@ == "account locked due to repeated, failed login attempts"@,
                ServiceError::Forbidden(reason) => r == ApiError::Forbidden { reason },
                ServiceError::BadRequest(m) => r == ApiError::BadRequest(m),
                ServiceError::Repository(RepositoryError::NotFound { entity, property, value }) => r
                    == ApiError::NotFound { entity, property, value },
                ServiceError::Repository(RepositoryError::Database(_)) => r is Internal,
                ServiceError::Repository(e) => r matches ApiError::BadRequest(m) && m@
                    == "bad request: "@ + repository_message(e),
                ServiceError::NotFound { entity, property, value } => r == ApiError::NotFound {
                    entity,
                    property,
                    value,
                },
                ServiceError::Internal(m) => r == ApiError::Internal(m),
            },
    {
        match err {
            ServiceError::Unauthorized(reason) => ApiError::Unauthorized { reason },
            ServiceError::InvalidUsernameOrPassword => ApiError::Unauthorized {
                reason: String::from_str("invalid username or password"),
            },
            ServiceError::AccountLocked => ApiError::Unauthorized {
                reason: String::from_str("account locked due to repeated, failed login attempts"),
            },
            ServiceError::Forbidden(reason) => ApiError::Forbidden { reason },
            ServiceError::BadRequest(m) => ApiError::BadRequest(m),
            ServiceError::Repository(repo_err) => match repo_err {
                RepositoryError::NotFound { entity, property, value } => ApiError::NotFound {
                    entity,
                    property,
                    value,
                },
                RepositoryError::Database(m) => {
                    let mut text = String::from_str("database error: ");
                    text.append(m.as_str());
                    ApiError::Internal(text)
                },
                RepositoryError::ArgumentOutOfRange { .. } => {
                    let mut text = String::from_str("bad request: ");
                    let detail = repo_err.message();
                    text.append(detail.as_str());
                    ApiError::BadRequest(text)
                },
            },
            ServiceError::NotFound { entity, property, value } => ApiError::NotFound {
                entity,
                property,
                value,
            },
            ServiceError::Internal(m) => ApiError::Internal(m),
        }
    }

    /// The HTTP status code for this error.
    pub fn status_code(&self) -> (r: u16)
        ensures
            r == status_of(*self),
    {
        match self {
            ApiError::Internal(_) => 500,
            ApiError::NotFound { .. } => 404,
            ApiError::BadRequest(_) => 400,
            ApiError::Unauthorized { .. } => 401,
            ApiError::Forbidden { .. } => 403,
        }
    }

    /// Whether the server logs this error as its own failure rather than
    /// the client's.
    pub fn is_server_error(&self) -> (r: bool)
        ensures
            r == (*self is Internal),
    {
        matches!(self, ApiError::Internal(_))
    }

    /// The message that a client may see.
    pub fn public_message(&self) -> (r: String)
        ensures
            r@ == public_message_of(*self),
    {
        match self {
            ApiError::Internal(_) => String::from_str("An internal server error occurred"),
            ApiError::Unauthorized { .. } => String::from_str("Unauthorized"),
            ApiError::Forbidden { .. } => String::from_str("Forbidden"),
            ApiError::NotFound { entity, property, value } => {
                let mut r = String::from_str("NotFound: ");
                let tail = not_found_message(entity, property, value);
                r.append(tail.as_str());
                r
            },
            ApiError::BadRequest(m) => {
                let mut r = String::from_str("Bad Request: ");
                r.append(m.as_str());
                r
            },
        }
    }

    /// The body sent to the client.
    pub fn error_response(&self) -> (r: ErrorResponse)
        ensures
            r.error@ == public_message_of(*self),
    {
        ErrorResponse { error: self.public_message() }
    }
}

} // verus!
