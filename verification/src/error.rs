//! Error taxonomy: from a failure of the persistence layer to the error a
//! client is shown.
//!
//! A failed query is first sorted into a [`DatabaseError`], which keeps the
//! wording of the failure. A [`DatabaseError`] is then turned into an
//! [`ApiError`], which adds the category that decides the HTTP status and keeps
//! the cause for diagnostics.

use vstd::prelude::*;

verus! {

/// Category of an error as the HTTP layer sees it.
#[derive(Debug, Clone, Copy, PartialEq, Eq, Structural)]
pub enum ErrorCode {
    NotFound,
    Conflict,
    DatabaseError,
    ConnectionPoolError,
    Validation,
}

impl ErrorCode {
    /// The HTTP status that answers an error of this category.
    pub open spec fn status_of(self) -> u16 {
        match self {
            ErrorCode::NotFound => 404,
            ErrorCode::Conflict => 400,
            ErrorCode::Validation => 400,
            ErrorCode::DatabaseError => 500,
            ErrorCode::ConnectionPoolError => 500,
        }
    }

    /// The HTTP status that answers an error of this category: 404 where
    /// something is missing, 400 where the request cannot be accepted as it
    /// is, 500 where the service itself failed.
    pub fn status(&self) -> (status: u16)
        ensures
            status == self.status_of(),
    {
        match self {
            ErrorCode::NotFound => 404,
            ErrorCode::Conflict => 400,
            ErrorCode::Validation => 400,
            ErrorCode::DatabaseError => 500,
            ErrorCode::ConnectionPoolError => 500,
        }
    }
}

/// A failure of the persistence layer, sorted by kind, with the wording that
/// came with it.
#[derive(Debug, Clone, PartialEq, Eq)]
pub enum DatabaseError {
    ConnectionFailed(String),
    QueryFailed(String),
    RecordNotFound(String),
    UniqueViolation(String),
    TransactionFailed(String),
    PoolError(String),
}

/// What `{:?}` writes for a string: the text between double quotes, each
/// character that std escapes replaced by its escape.
pub uninterp spec fn debug_quoted(text: Seq<char>) -> Seq<char>;

/// Formats `text` with `{:?}`, that is with std's `Debug` for `str`. The
/// result depends on the text alone; [`debug_quoted`] is its name.
#[verifier::external_body]
fn quote_for_debug(text: &str) -> (quoted: String)
    ensures
        quoted@ == debug_quoted(text@),
{
    format!("{:?}", text)
}

impl DatabaseError {
    /// The wording that came with the failure.
    pub open spec fn detail(&self) -> Seq<char> {
        match self {
            DatabaseError::ConnectionFailed(text) => text@,
            DatabaseError::QueryFailed(text) => text@,
            DatabaseError::RecordNotFound(text) => text@,
            DatabaseError::UniqueViolation(text) => text@,
            DatabaseError::TransactionFailed(text) => text@,
            DatabaseError::PoolError(text) => text@,
        }
    }

    /// What the message says of the kind of failure, before the wording.
    pub open spec fn headline(&self) -> Seq<char> {
        match self {
            DatabaseError::ConnectionFailed(_) => "Database connection failed: "@,
            DatabaseError::QueryFailed(_) => "Database query failed: "@,
            DatabaseError::RecordNotFound(_) => "Record not found: "@,
            DatabaseError::UniqueViolation(_) => "Unique constraint violation: "@,
            DatabaseError::TransactionFailed(_) => "Transaction failed: "@,
            DatabaseError::PoolError(_) => "Connection pool error: "@,
        }
    }

    /// The name of the kind of failure.
    pub open spec fn kind_name(&self) -> Seq<char> {
        match self {
            DatabaseError::ConnectionFailed(_) => "ConnectionFailed"@,
            DatabaseError::QueryFailed(_) => "QueryFailed"@,
            DatabaseError::RecordNotFound(_) => "RecordNotFound"@,
            DatabaseError::UniqueViolation(_) => "UniqueViolation"@,
            DatabaseError::TransactionFailed(_) => "TransactionFailed"@,
            DatabaseError::PoolError(_) => "PoolError"@,
        }
    }

    /// The category under which a client hears of the failure.
    pub open spec fn code_of(&self) -> ErrorCode {
        match self {
            DatabaseError::ConnectionFailed(_) => ErrorCode::ConnectionPoolError,
            DatabaseError::PoolError(_) => ErrorCode::ConnectionPoolError,
            DatabaseError::QueryFailed(_) => ErrorCode::DatabaseError,
            DatabaseError::TransactionFailed(_) => ErrorCode::DatabaseError,
            DatabaseError::RecordNotFound(_) => ErrorCode::NotFound,
            DatabaseError::UniqueViolation(_) => ErrorCode::Conflict,
        }
    }

    /// The text of [`DatabaseError::message`].
    pub open spec fn message_text(&self) -> Seq<char> {
        self.headline() + self.detail()
    }

    /// The text of [`DatabaseError::error_type`].
    pub open spec fn error_type_text(&self) -> Seq<char> {
        self.kind_name() + "("@ + debug_quoted(self.detail()) + ")"@
    }

    /// The category under which a client hears of the failure. Every kind
    /// has one: a connection that could not be had, from the server or from
    /// the pool, is a pool error; a failed query or transaction is a database
    /// error; a missing record is not found; a broken uniqueness rule is a
    /// conflict.
    pub fn code(&self) -> (code: ErrorCode)
        ensures
            code == self.code_of(),
    {
        match self {
            DatabaseError::ConnectionFailed(_) => ErrorCode::ConnectionPoolError,
            DatabaseError::PoolError(_) => ErrorCode::ConnectionPoolError,
            DatabaseError::QueryFailed(_) => ErrorCode::DatabaseError,
            DatabaseError::TransactionFailed(_) => ErrorCode::DatabaseError,
            DatabaseError::RecordNotFound(_) => ErrorCode::NotFound,
            DatabaseError::UniqueViolation(_) => ErrorCode::Conflict,
        }
    }

    /// The message for a reader: what kind of failure it was, then the
    /// wording that came with it.
    pub fn message(&self) -> (text: String)
        ensures
            text@ == self.message_text(),
    {
        match self {
            DatabaseError::ConnectionFailed(detail) => String::from_str(
                "Database connection failed: ",
            ).concat(detail.as_str()),
            DatabaseError::QueryFailed(detail) => String::from_str("Database query failed: ").concat(
                detail.as_str(),
            ),
            DatabaseError::RecordNotFound(detail) => String::from_str("Record not found: ").concat(
                detail.as_str(),
            ),
            DatabaseError::UniqueViolation(detail) => String::from_str(
                "Unique constraint violation: ",
            ).concat(detail.as_str()),
            DatabaseError::TransactionFailed(detail) => String::from_str(
                "Transaction failed: ",
            ).concat(detail.as_str()),
            DatabaseError::PoolError(detail) => String::from_str("Connection pool error: ").concat(
                detail.as_str(),
            ),
        }
    }

    /// The failure written out for diagnostics: the name of its kind with
    /// the wording behind it in brackets, quoted as `{:?}` quotes a string.
    pub fn error_type(&self) -> (text: String)
        ensures
            text@ == self.error_type_text(),
    {
        let (name, detail): (&str, &String) = match self {
            DatabaseError::ConnectionFailed(detail) => ("ConnectionFailed", detail),
            DatabaseError::QueryFailed(detail) => ("QueryFailed", detail),
            DatabaseError::RecordNotFound(detail) => ("RecordNotFound", detail),
            DatabaseError::UniqueViolation(detail) => ("UniqueViolation", detail),
            DatabaseError::TransactionFailed(detail) => ("TransactionFailed", detail),
            DatabaseError::PoolError(detail) => ("PoolError", detail),
        };
        let quoted: String = quote_for_debug(detail.as_str());
        String::from_str(name).concat("(").concat(quoted.as_str()).concat(")")
    }
}

/// The error with which a query of the persistence layer fails.
#[verifier::external_type_specification]
#[verifier::external_body]
pub struct ExQueryError(diesel::result::Error);

/// What a failed query reports, as far as the translation reads it.
#[derive(Debug, Clone, PartialEq, Eq)]
pub enum QueryFault {
    /// A query that had to return a row returned none.
    NotFound,
    /// The database refused the statement because it breaks a uniqueness
    /// rule; with the database's own primary message.
    UniqueViolation(String),
    /// The database refused the statement for another reason; with the
    /// database's own primary message.
    Database(String),
    /// A transaction was asked to roll back.
    RollbackTransaction,
    /// The operation cannot run inside a transaction, and one was open.
    AlreadyInTransaction,
    /// The operation needs a transaction, and none was open.
    NotInTransaction,
    /// Any other failure.
    Other,
}

/// What [`read_fault`] reads from an error of a query: which variant of
/// `diesel::result::Error` it is and, for the variant `DatabaseError`, whether
/// its kind is `UniqueViolation` and what its information gives as message.
pub uninterp spec fn fault_of(error: diesel::result::Error) -> QueryFault;

/// The text that an error of a query displays as.
pub uninterp spec fn text_of(error: diesel::result::Error) -> Seq<char>;

/// Tells the variants of `diesel::result::Error` apart and, within its
/// variant `DatabaseError`, the kind `UniqueViolation` from the other kinds.
/// For that variant the fault carries what
/// `DatabaseErrorInformation::message` returns for the information in it.
/// The fault depends on the error alone; [`fault_of`] is its name. Nothing
/// else is claimed of which fault comes out.
#[verifier::external_body]
fn read_fault(error: &diesel::result::Error) -> (fault: QueryFault)
    ensures
        fault == fault_of(*error),
{
    match error {
        diesel::result::Error::NotFound => QueryFault::NotFound,
        diesel::result::Error::DatabaseError(
            diesel::result::DatabaseErrorKind::UniqueViolation,
            info,
        ) => QueryFault::UniqueViolation(info.message().to_string()),
        diesel::result::Error::DatabaseError(_, info) => QueryFault::Database(info.message().to_string()),
        diesel::result::Error::RollbackTransaction => QueryFault::RollbackTransaction,
        diesel::result::Error::AlreadyInTransaction => QueryFault::AlreadyInTransaction,
        diesel::result::Error::NotInTransaction => QueryFault::NotInTransaction,
        _ => QueryFault::Other,
    }
}

/// The text that `diesel::result::Error` displays as. The text depends on
/// the error alone; [`text_of`] is its name. Nothing else is claimed of the
/// text.
#[verifier::external_body]
fn describe(error: &diesel::result::Error) -> (description: String)
    ensures
        description@ == text_of(*error),
{
    error.to_string()
}

impl DatabaseError {
    /// Whether `self` is the failure that a query's `fault` is sorted into,
    /// where `description` is what the query's error displays as.
    ///
    /// A missing row is a record not found and a rollback is a failed
    /// transaction, both in the words of the description. What the database
    /// refused is a unique violation where it breaks a uniqueness rule and a
    /// failed query otherwise, both in the database's own words. A transaction
    /// open or missing at the wrong moment is a failed transaction, under a
    /// fixed wording. Anything else is a failed query in the words of the
    /// description.
    pub open spec fn sorts(&self, fault: QueryFault, description: Seq<char>) -> bool {
        match fault {
            QueryFault::NotFound => *self matches DatabaseError::RecordNotFound(text)
                && text@ == description,
            QueryFault::UniqueViolation(message) => *self matches DatabaseError::UniqueViolation(
                text,
            ) && text@ == message@,
            QueryFault::Database(message) => *self matches DatabaseError::QueryFailed(text)
                && text@ == message@,
            QueryFault::RollbackTransaction => *self matches DatabaseError::TransactionFailed(text)
                && text@ == description,
            QueryFault::AlreadyInTransaction => *self matches DatabaseError::TransactionFailed(text)
                && text@ == "Already in transaction"@,
            QueryFault::NotInTransaction => *self matches DatabaseError::TransactionFailed(text)
                && text@ == "Not in transaction"@,
            QueryFault::Other => *self matches DatabaseError::QueryFailed(text)
                && text@ == description,
        }
    }

    /// Sorts what a failed query reported into a kind of failure.
    /// `description` is what the query's error displays as.
    pub fn from_fault(fault: QueryFault, description: String) -> (failure: DatabaseError)
        ensures
            failure.sorts(fault, description@),
    {
        match fault {
            QueryFault::NotFound => DatabaseError::RecordNotFound(description),
            QueryFault::UniqueViolation(message) => DatabaseError::UniqueViolation(message),
            QueryFault::Database(message) => DatabaseError::QueryFailed(message),
            QueryFault::RollbackTransaction => DatabaseError::TransactionFailed(description),
            QueryFault::AlreadyInTransaction => DatabaseError::TransactionFailed(
                String::from_str("Already in transaction"),
            ),
            QueryFault::NotInTransaction => DatabaseError::TransactionFailed(
                String::from_str("Not in transaction"),
            ),
            QueryFault::Other => DatabaseError::QueryFailed(description),
        }
    }
}

impl From<diesel::result::Error> for DatabaseError {
    /// Sorts the error of a failed query into a kind of failure, as
    /// [`DatabaseError::from_fault`] does with what the error reports.
    ///
    /// The failure is what [`DatabaseError::sorts`] makes of the fault that
    /// the error holds and of the text that the error displays as. Whatever
    /// the error, it is a record not found, a unique violation, a failed
    /// query or a failed transaction: a query's error is never taken for a
    /// connection that could not be had.
    fn from(error: diesel::result::Error) -> (failure: DatabaseError)
        ensures
            failure.sorts(fault_of(error), text_of(error)),
            !(failure is ConnectionFailed) && !(failure is PoolError),
            failure.code_of() != ErrorCode::ConnectionPoolError,
            failure.code_of() != ErrorCode::Validation,
    {
        let fault: QueryFault = read_fault(&error);
        let description: String = describe(&error);
        DatabaseError::from_fault(fault, description)
    }
}

impl vstd::std_specs::convert::FromSpecImpl<diesel::result::Error> for DatabaseError {
    open spec fn obeys_from_spec() -> bool {
        false
    }

    open spec fn from_spec(error: diesel::result::Error) -> DatabaseError {
        arbitrary()
    }
}

/// One named fact about an error, kept for whoever looks into it.
#[derive(Debug, Clone, PartialEq, Eq)]
pub struct ErrorDetail {
    pub name: String,
    pub value: String,
}

/// Structured context of an error: named facts, in the order in which they
/// were added. Often empty.
#[derive(Debug, Clone, PartialEq, Eq)]
pub struct ErrorContext {
    pub details: Vec<ErrorDetail>,
}

impl ErrorContext {
    /// A context without any fact.
    pub fn new() -> (context: Self)
        ensures
            context.details@.len() == 0,
    {
        ErrorContext { details: Vec::new() }
    }

    /// The context with one more fact, after those it had.
    pub fn with_details(self, name: &str, value: String) -> (context: Self)
        ensures
            context.details@.len() == self.details@.len() + 1,
            context.details@.subrange(0, self.details@.len() as int) == self.details@,
            context.details@.last().name@ == name@,
            context.details@.last().value == value,
    {
        let mut details: Vec<ErrorDetail> = self.details;
        details.push(ErrorDetail { name: String::from_str(name), value });
        ErrorContext { details }
    }
}

/// An error as the HTTP layer handles it: a category, a message for the
/// client, context, and the failure that caused it, where there was one.
/// The cause is for logs and diagnostics; a reply never carries it.
#[derive(Debug, Clone, PartialEq, Eq)]
pub struct ApiError {
    pub code: ErrorCode,
    pub message: String,
    pub context: ErrorContext,
    pub source: Option<DatabaseError>,
}

impl ApiError {
    /// An error of category `code` with no known cause.
    pub fn new(code: ErrorCode, message: String, context: ErrorContext) -> (error: Self)
        ensures
            error.code == code,
            error.message == message,
            error.context == context,
            error.source is None,
    {
        ApiError { code, message, context, source: None }
    }

    /// The same error, with `source` recorded as its cause.
    pub fn with_source(self, source: DatabaseError) -> (error: Self)
        ensures
            error.code == self.code,
            error.message == self.message,
            error.context == self.context,
            error.source == Some(source),
    {
        ApiError { code: self.code, message: self.message, context: self.context, source: Some(source) }
    }

    /// The HTTP status that answers this error.
    pub fn status(&self) -> (status: u16)
        ensures
            status == self.code.status_of(),
    {
        self.code.status()
    }

    /// Whether `self` is what the translation makes of `cause`: its category
    /// and message, its kind and wording as the one fact of the context, and
    /// `cause` itself kept as the source.
    pub open spec fn translates(&self, cause: DatabaseError) -> bool {
        &&& self.code == cause.code_of()
        &&& self.message@ == cause.message_text()
        &&& self.context.details@.len() == 1
        &&& self.context.details@[0].name@ == "error_type"@
        &&& self.context.details@[0].value@ == cause.error_type_text()
        &&& self.source == Some(cause)
    }
}

impl From<DatabaseError> for ApiError {
    /// Translates a failure of the persistence layer for the HTTP layer.
    ///
    /// The category follows the kind of failure and the message is the
    /// failure's own. The context records under `error_type` the failure as
    /// [`DatabaseError::error_type`] writes it, and the failure itself is kept
    /// as the source, so that nothing of it is lost.
    fn from(error: DatabaseError) -> (api_error: ApiError)
        ensures
            api_error.translates(error),
    {
        let code: ErrorCode = error.code();
        let message: String = error.message();
        let context: ErrorContext = ErrorContext::new().with_details("error_type", error.error_type());
        ApiError::new(code, message, context).with_source(error)
    }
}

impl vstd::std_specs::convert::FromSpecImpl<DatabaseError> for ApiError {
    open spec fn obeys_from_spec() -> bool {
        false
    }

    open spec fn from_spec(error: DatabaseError) -> ApiError {
        arbitrary()
    }
}

} // verus!
