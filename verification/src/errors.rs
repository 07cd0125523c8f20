//! The closed set of failure kinds and the response each one is rendered as.

use vstd::prelude::*;
use vstd::string::*;

verus! {

/// What the storage engine said about a statement it refused.
#[derive(Debug, Clone, PartialEq, Eq)]
pub struct DatabaseFault {
    /// A unique constraint was violated.
    pub unique_violation: bool,
    /// A foreign-key constraint was violated.
    pub foreign_key_violation: bool,
    /// The engine's own message for the violation.
    pub message: String,
}

/// A failure reported by the storage layer.
#[derive(Debug, Clone, PartialEq, Eq)]
pub struct StorageFault {
    /// Present when the failure came from the database engine itself.
    pub database: Option<DatabaseFault>,
    /// Full internal description, for the server log only.
    pub detail: String,
}

/// Why a presented token was not accepted.
#[derive(Debug, Clone, Copy, PartialEq, Eq, Structural)]
pub enum TokenFault {
    /// The string is not a token this service accepts: it is not well
    /// formed, its header or payload is not what the service issues, or its
    /// payload lacks a claim.
    Malformed,
    /// The signature does not match the header and payload.
    InvalidSignature,
    /// The signature matches but the token's validity window is over.
    Expired,
}

/// Severity at which a failure is written to the server log.
#[derive(Debug, Clone, Copy, PartialEq, Eq, Structural)]
pub enum Severity {
    Error,
    Warn,
}

/// Every failure the authentication layer can surface.
#[derive(Debug, Clone, PartialEq, Eq)]
pub enum AppError {
    SqlxError(StorageFault),
    ConfigError(String),
    MigrateError(String),
    AuthError(String),
    InvalidCredentials,
    PasswordHashError(String),
    JwtError(TokenFault),
    MissingCredentials,
    Unauthorized,
    Forbidden,
    NotFound(String),
    Conflict(String),
    ValidationError(Vec<String>),
    InternalServerError(String),
}

/// Helper type for handlers.
pub type AppResult<T> = Result<T, AppError>;

/// An HTTP status with its JSON body and the line for the server log.
#[derive(Debug, Clone, PartialEq, Eq)]
pub struct ErrorResponse {
    pub status: u16,
    /// Always `application/json`.
    pub content_type: String,
    /// The JSON document `{"error": <message>}`.
    pub body: String,
    pub severity: Severity,
    /// Internal description; never sent to the client.
    pub log_line: String,
}

/// The text that `serde_json` prints for the JSON string holding `text`,
/// quotes and escapes included.
pub uninterp spec fn json_quoted(text: Seq<char>) -> Seq<char>;

/// The JSON document with the single key `error` bound to `message`.
pub open spec fn error_body(message: Seq<char>) -> Seq<char> {
    "{\"error\":"@ + json_quoted(message) + "}"@
}

/// The texts of a list of messages.
pub open spec fn texts(messages: Seq<String>) -> Seq<Seq<char>> {
    messages.map_values(|m: String| m@)
}

/// The messages in their order, with `"; "` between neighbours.
pub open spec fn joined(messages: Seq<Seq<char>>) -> Seq<char>
    decreases messages.len(),
{
    if messages.len() == 0 {
        Seq::empty()
    } else if messages.len() == 1 {
        messages[0]
    } else {
        joined(messages.drop_last()) + "; "@ + messages.last()
    }
}

/// The message of a token refusal in the server log.
pub open spec fn token_fault_text(fault: TokenFault) -> Seq<char> {
    match fault {
        TokenFault::Malformed => "malformed token"@,
        TokenFault::InvalidSignature => "invalid signature"@,
        TokenFault::Expired => "token expired"@,
    }
}

impl StorageFault {
    /// Status of a storage failure: a unique violation is a conflict, a
    /// foreign-key violation a bad request, anything else a server fault.
    pub open spec fn status(&self) -> u16 {
        match self.database {
            Some(db) => if db.unique_violation {
                409u16
            } else if db.foreign_key_violation {
                400u16
            } else {
                500u16
            },
            None => 500u16,
        }
    }

    /// Client-facing message of a storage failure.
    pub open spec fn message(&self) -> Seq<char> {
        match self.database {
            Some(db) => if db.unique_violation {
                "Resource already exists. "@ + db.message@
            } else if db.foreign_key_violation {
                "Invalid reference to another resource. "@ + db.message@
            } else {
                "Database error"@
            },
            None => "Database error"@,
        }
    }
}

impl AppError {
    /// HTTP status of each kind.
    pub open spec fn status(&self) -> u16 {
        match self {
            AppError::SqlxError(fault) => fault.status(),
            AppError::ConfigError(_) => 500u16,
            AppError::MigrateError(_) => 500u16,
            AppError::AuthError(_) => 401u16,
            AppError::InvalidCredentials => 401u16,
            AppError::PasswordHashError(_) => 500u16,
            AppError::JwtError(_) => 401u16,
            AppError::MissingCredentials => 400u16,
            AppError::Unauthorized => 401u16,
            AppError::Forbidden => 403u16,
            AppError::NotFound(_) => 404u16,
            AppError::Conflict(_) => 409u16,
            AppError::ValidationError(_) => 400u16,
            AppError::InternalServerError(_) => 500u16,
        }
    }

    /// Client-facing message of each kind.
    pub open spec fn message(&self) -> Seq<char> {
        match self {
            AppError::SqlxError(fault) => fault.message(),
            AppError::ConfigError(_) => "Configuration error"@,
            AppError::MigrateError(_) => "Database migration error"@,
            AppError::AuthError(_) => "Invalid credentials"@,
            AppError::InvalidCredentials => "Invalid credentials"@,
            AppError::PasswordHashError(_) => "Internal server error (hash)"@,
            AppError::JwtError(_) => "Invalid or expired token"@,
            AppError::MissingCredentials => "Missing credentials"@,
            AppError::Unauthorized => "Unauthorized"@,
            AppError::Forbidden => "Forbidden"@,
            AppError::NotFound(msg) => msg@,
            AppError::Conflict(msg) => msg@,
            AppError::ValidationError(_) => "Validation failed"@,
            AppError::InternalServerError(_) => "Internal server error"@,
        }
    }

    /// Internal description of each kind, as written to the server log.
    pub open spec fn display(&self) -> Seq<char> {
        match self {
            AppError::SqlxError(fault) => "Database error: "@ + fault.detail@,
            AppError::ConfigError(detail) => "Configuration error: "@ + detail@,
            AppError::MigrateError(detail) => "Migration error: "@ + detail@,
            AppError::AuthError(detail) => "Authentication failed: "@ + detail@,
            AppError::InvalidCredentials => "Invalid credentials"@,
            AppError::PasswordHashError(detail) => "Password hashing error: "@ + detail@,
            AppError::JwtError(fault) => "JWT error: "@ + token_fault_text(*fault),
            AppError::MissingCredentials => "Missing credentials"@,
            AppError::Unauthorized => "Unauthorized"@,
            AppError::Forbidden => "Forbidden"@,
            AppError::NotFound(detail) => "Not found: "@ + detail@,
            AppError::Conflict(detail) => "Conflict: "@ + detail@,
            AppError::ValidationError(fields) => "Validation error: "@ + joined(texts(fields@)),
            AppError::InternalServerError(detail) => "Internal server error: "@ + detail@,
        }
    }

    /// Server faults are logged as errors, everything else as warnings.
    pub open spec fn severity(&self) -> Severity {
        if self.status() == 500u16 {
            Severity::Error
        } else {
            Severity::Warn
        }
    }

    /// The response this kind is rendered as.
    pub open spec fn response_matches(&self, response: ErrorResponse) -> bool {
        &&& response.status == self.status()
        &&& response.content_type@ == "application/json"@
        &&& response.body@ == error_body(self.message())
        &&& response.severity == self.severity()
        &&& response.log_line@ == self.display()
    }
}

/// JSON-encodes `text` as a string literal by printing a
/// `serde_json::Value::String`. The contract only gives the printed text its
/// name, [`json_quoted`]; the escaping itself is `serde_json`'s.
#[verifier::external_body]
fn json_string(text: &str) -> (out: String)
    ensures
        out@ == json_quoted(text@),
{
    serde_json::Value::String(text.to_string()).to_string()
}

fn join(head: &str, tail: &str) -> (out: String)
    ensures
        out@ == head@ + tail@,
{
    head.to_owned().concat(tail)
}

/// Joins the per-field messages of a validation failure for the log.
pub fn join_messages(messages: &Vec<String>) -> (out: String)
    ensures
        out@ == joined(texts(messages@)),
{
    let mut out = String::new();
    let mut i: usize = 0;
    while i < messages.len()
        invariant
            i <= messages.len(),
            out@ == joined(texts(messages@).take(i as int)),
        decreases messages.len() - i,
    {
        if i > 0 {
            out.append("; ");
        }
        out.append(messages[i].as_str());
        proof {
            let all = texts(messages@);
            assert(all.take(i + 1).drop_last() =~= all.take(i as int));
            assert(all.take(i + 1).last() == messages@[i as int]@);
            if i == 0 {
                assert(out@ =~= all.take(1)[0]);
            }
        }
        i += 1;
    }
    assert(texts(messages@).take(i as int) =~= texts(messages@));
    out
}

impl TokenFault {
    /// The message of this refusal in the server log.
    pub fn describe(&self) -> (out: String)
        ensures
            out@ == token_fault_text(*self),
    {
        match self {
            TokenFault::Malformed => "malformed token".to_owned(),
            TokenFault::InvalidSignature => "invalid signature".to_owned(),
            TokenFault::Expired => "token expired".to_owned(),
        }
    }
}

impl StorageFault {
    pub fn status_code(&self) -> (code: u16)
        ensures
            code == self.status(),
    {
        match &self.database {
            Some(db) => if db.unique_violation {
                409
            } else if db.foreign_key_violation {
                400
            } else {
                500
            },
            None => 500,
        }
    }

    pub fn client_message(&self) -> (out: String)
        ensures
            out@ == self.message(),
    {
        match &self.database {
            Some(db) => if db.unique_violation {
                join("Resource already exists. ", db.message.as_str())
            } else if db.foreign_key_violation {
                join("Invalid reference to another resource. ", db.message.as_str())
            } else {
                "Database error".to_owned()
            },
            None => "Database error".to_owned(),
        }
    }
}

impl AppError {
    /// The HTTP status this kind is answered with.
    pub fn status_code(&self) -> (code: u16)
        ensures
            code == self.status(),
            code == 400 || code == 401 || code == 403 || code == 404 || code == 409 || code == 500,
    {
        match self {
            AppError::SqlxError(fault) => fault.status_code(),
            AppError::ConfigError(_) => 500,
            AppError::MigrateError(_) => 500,
            AppError::AuthError(_) => 401,
            AppError::InvalidCredentials => 401,
            AppError::PasswordHashError(_) => 500,
            AppError::JwtError(_) => 401,
            AppError::MissingCredentials => 400,
            AppError::Unauthorized => 401,
            AppError::Forbidden => 403,
            AppError::NotFound(_) => 404,
            AppError::Conflict(_) => 409,
            AppError::ValidationError(_) => 400,
            AppError::InternalServerError(_) => 500,
        }
    }

    /// The message the client is shown.
    pub fn client_message(&self) -> (out: String)
        ensures
            out@ == self.message(),
    {
        match self {
            AppError::SqlxError(fault) => fault.client_message(),
            AppError::ConfigError(_) => "Configuration error".to_owned(),
            AppError::MigrateError(_) => "Database migration error".to_owned(),
            AppError::AuthError(_) => "Invalid credentials".to_owned(),
            AppError::InvalidCredentials => "Invalid credentials".to_owned(),
            AppError::PasswordHashError(_) => "Internal server error (hash)".to_owned(),
            AppError::JwtError(_) => "Invalid or expired token".to_owned(),
            AppError::MissingCredentials => "Missing credentials".to_owned(),
            AppError::Unauthorized => "Unauthorized".to_owned(),
            AppError::Forbidden => "Forbidden".to_owned(),
            AppError::NotFound(msg) => msg.clone(),
            AppError::Conflict(msg) => msg.clone(),
            AppError::ValidationError(_) => "Validation failed".to_owned(),
            AppError::InternalServerError(_) => "Internal server error".to_owned(),
        }
    }

    /// The internal description, with the detail the kind carries.
    pub fn to_string(&self) -> (out: String)
        ensures
            out@ == self.display(),
    {
        match self {
            AppError::SqlxError(fault) => join("Database error: ", fault.detail.as_str()),
            AppError::ConfigError(detail) => join("Configuration error: ", detail.as_str()),
            AppError::MigrateError(detail) => join("Migration error: ", detail.as_str()),
            AppError::AuthError(detail) => join("Authentication failed: ", detail.as_str()),
            AppError::InvalidCredentials => "Invalid credentials".to_owned(),
            AppError::PasswordHashError(detail) => join(
                "Password hashing error: ",
                detail.as_str(),
            ),
            AppError::JwtError(fault) => join("JWT error: ", fault.describe().as_str()),
            AppError::MissingCredentials => "Missing credentials".to_owned(),
            AppError::Unauthorized => "Unauthorized".to_owned(),
            AppError::Forbidden => "Forbidden".to_owned(),
            AppError::NotFound(detail) => join("Not found: ", detail.as_str()),
            AppError::Conflict(detail) => join("Conflict: ", detail.as_str()),
            AppError::ValidationError(fields) => join(
                "Validation error: ",
                join_messages(fields).as_str(),
            ),
            AppError::InternalServerError(detail) => join(
                "Internal server error: ",
                detail.as_str(),
            ),
        }
    }

    /// The severity at which this kind is logged.
    pub fn log_severity(&self) -> (level: Severity)
        ensures
            level == self.severity(),
    {
        if self.status_code() == 500 {
            Severity::Error
        } else {
            Severity::Warn
        }
    }

    /// Renders this kind as its status, JSON body and log line.
    pub fn into_response(self) -> (response: ErrorResponse)
        ensures
            self.response_matches(response),
    {
        let quoted = json_string(self.client_message().as_str());
        let body = join("{\"error\":", quoted.as_str()).concat("}");
        ErrorResponse {
            status: self.status_code(),
            content_type: "application/json".to_owned(),
            body,
            severity: self.log_severity(),
            log_line: self.to_string(),
        }
    }
}

/// A server fault never shows what the failure carried: every kind answered
/// with status 500 is logged as an error and its client message is one of five
/// fixed texts.
pub proof fn lemma_server_faults_are_generic(e: AppError)
    requires
        e.status() == 500u16,
    ensures
        e.severity() == Severity::Error,
        e.message() == "Database error"@ || e.message() == "Configuration error"@ || e.message()
            == "Database migration error"@ || e.message() == "Internal server error (hash)"@
            || e.message() == "Internal server error"@,
{
}

/// Every body is an object that opens with the key `error`.
pub proof fn lemma_body_opens_with_error_key(e: AppError)
    ensures
        "{\"error\":"@.is_prefix_of(error_body(e.message())),
        error_body(e.message()).last() == '}',
{
    let key = "{\"error\":"@;
    let body = error_body(e.message());
    reveal_strlit("}");
    assert(body.subrange(0, key.len() as int) =~= key);
}

/// Credential and token failures answer 401 with a message that does not
/// depend on what the failure carried.
pub proof fn lemma_auth_failures_are_uniform(e: AppError, detail: String)
    ensures
        AppError::AuthError(detail).status() == AppError::InvalidCredentials.status(),
        AppError::AuthError(detail).message() == AppError::InvalidCredentials.message(),
        e is JwtError ==> e.status() == 401u16 && e.message() == "Invalid or expired token"@,
{
}

} // verus!
