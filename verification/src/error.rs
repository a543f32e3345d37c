use vstd::prelude::*;
use crate::db::DbError;
use crate::store::CurrentContributionStep;

verus! {

/// HTTP status codes the server answers with.
pub const BAD_REQUEST: u16 = 400;
pub const UNAUTHORIZED: u16 = 401;
pub const NOT_FOUND: u16 = 404;
pub const GONE: u16 = 410;
pub const INTERNAL_SERVER_ERROR: u16 = 500;
pub const SERVICE_UNAVAILABLE: u16 = 503;

/// What went wrong while handling a request.
#[derive(Debug)]
pub enum ErrorKind {
    /// The contributors table refused the operation.
    Db(DbError),
    /// A join request from a contributor who is already queued.
    AlreadyInQueue,
    /// A join request from a contributor who has already contributed.
    AlreadyFinished,
    /// The contributor was kicked, for the given reason.
    Kicked { reason: String },
    /// A progress update from a contributor who is not the active one.
    NotCurrentContributor,
    /// A progress update that does not fit the active contributor's step.
    WrongStep { current: CurrentContributionStep, expected: CurrentContributionStep },
    /// Nobody has finished contributing yet.
    NoContributionsYet,
    /// The message was not signed by the key it must be signed with;
    /// `admin` tells whether that key is the administrator's.
    Unauthorized { admin: bool },
    /// A request to an unknown route.
    InvalidRoute,
    /// A request body that could not be parsed.
    InvalidBody,
    /// An error with added context.
    WithContext { context: String, inner: Box<ErrorKind> },
}

impl DbError {
    /// The text of a table error.
    pub open spec fn spec_message(self) -> Seq<char> {
        match self {
            DbError::ContributorNotFound => "Contributor not found"@,
            DbError::AlreadyRegistered => "Contributor already registered"@,
            DbError::NoCurrentContributor => "No current contributor"@,
            DbError::MalformedRow => "Malformed contributor row"@,
            DbError::CannotEnqueue => "Contributor not found or not in a state that can be enqueued"@,
        }
    }

    /// The text of a table error.
    pub fn message(&self) -> (s: &'static str)
        ensures
            s@ == self.spec_message(),
    {
        match self {
            DbError::ContributorNotFound => "Contributor not found",
            DbError::AlreadyRegistered => "Contributor already registered",
            DbError::NoCurrentContributor => "No current contributor",
            DbError::MalformedRow => "Malformed contributor row",
            DbError::CannotEnqueue => "Contributor not found or not in a state that can be enqueued",
        }
    }
}

impl ErrorKind {
    /// The text answered to the client: for an error with context, the outermost
    /// context.
    pub open spec fn spec_message(self) -> Seq<char> {
        match self {
            ErrorKind::Db(e) => e.spec_message(),
            ErrorKind::AlreadyInQueue => "Already in queue"@,
            ErrorKind::AlreadyFinished => "Already finished contributing"@,
            ErrorKind::Kicked { reason } => "You were kicked. Please restart to rejoin queue. Reason was: "@ + reason@,
            ErrorKind::NotCurrentContributor => "Not the current active contributor"@,
            ErrorKind::WrongStep { current, expected } => "Can't make this request right now, the current state is "@
                + current.spec_variant_name() + ", expected "@ + expected.spec_variant_name() + "."@,
            ErrorKind::NoContributionsYet => "No contributions yet"@,
            ErrorKind::Unauthorized { admin } => if admin {
                "You must be authenticated as the same contributor in the message"@
            } else {
                "You must be admin to do this"@
            },
            ErrorKind::InvalidRoute => "Invalid route."@,
            ErrorKind::InvalidBody => "While parsing request body"@,
            ErrorKind::WithContext { context, .. } => context@,
        }
    }

    /// The text answered to the client (see `spec_message`).
    pub fn message(&self) -> (s: String)
        ensures
            s@ == self.spec_message(),
    {
        match self {
            ErrorKind::Db(e) => String::from_str(e.message()),
            ErrorKind::AlreadyInQueue => String::from_str("Already in queue"),
            ErrorKind::AlreadyFinished => String::from_str("Already finished contributing"),
            ErrorKind::Kicked { reason } => {
                let mut s = String::from_str("You were kicked. Please restart to rejoin queue. Reason was: ");
                s.append(reason.as_str());
                s
            },
            ErrorKind::NotCurrentContributor => String::from_str("Not the current active contributor"),
            ErrorKind::WrongStep { current, expected } => {
                let mut s = String::from_str("Can't make this request right now, the current state is ");
                s.append(current.variant_name());
                s.append(", expected ");
                s.append(expected.variant_name());
                s.append(".");
                s
            },
            ErrorKind::NoContributionsYet => String::from_str("No contributions yet"),
            ErrorKind::Unauthorized { admin } => if *admin {
                String::from_str("You must be authenticated as the same contributor in the message")
            } else {
                String::from_str("You must be admin to do this")
            },
            ErrorKind::InvalidRoute => String::from_str("Invalid route."),
            ErrorKind::InvalidBody => String::from_str("While parsing request body"),
            ErrorKind::WithContext { context, .. } => context.clone(),
        }
    }
}

/// An error that knows which HTTP code to answer with.
#[derive(Debug)]
pub struct ErrorWithCode {
    pub error: ErrorKind,
    pub code: Option<u16>,
}

impl ErrorWithCode {
    /// Wraps the error with a context description; the code is kept.
    pub fn context(self, s: &str) -> (r: ErrorWithCode)
        ensures
            r.code == self.code,
            r.error matches ErrorKind::WithContext { context, inner } && context@ == s@ && *inner == self.error,
    {
        ErrorWithCode {
            error: ErrorKind::WithContext { context: s.to_owned(), inner: Box::new(self.error) },
            code: self.code,
        }
    }

    /// The code to answer with: the attached one, or 500 when none is attached.
    pub fn code(&self) -> (c: u16)
        ensures
            c == match self.code {
                Some(c) => c,
                None => INTERNAL_SERVER_ERROR,
            },
    {
        match self.code {
            Some(c) => c,
            None => INTERNAL_SERVER_ERROR,
        }
    }

    /// An error without an attached code.
    pub fn from_kind(error: ErrorKind) -> (r: ErrorWithCode)
        ensures
            r.error == error,
            r.code is None,
    {
        ErrorWithCode { error, code: None }
    }
}

/// An error answered with 400.
pub fn bad_request(error: ErrorKind) -> (r: ErrorWithCode)
    ensures
        r.error == error,
        r.code == Some(BAD_REQUEST),
{
    ErrorWithCode { error, code: Some(BAD_REQUEST) }
}

/// An error answered with 500.
pub fn server_error(error: ErrorKind) -> (r: ErrorWithCode)
    ensures
        r.error == error,
        r.code == Some(INTERNAL_SERVER_ERROR),
{
    ErrorWithCode { error, code: Some(INTERNAL_SERVER_ERROR) }
}

/// An error answered with 503.
pub fn service_unavailable(error: ErrorKind) -> (r: ErrorWithCode)
    ensures
        r.error == error,
        r.code == Some(SERVICE_UNAVAILABLE),
{
    ErrorWithCode { error, code: Some(SERVICE_UNAVAILABLE) }
}

/// Turns a plain error result into one that knows its code; an error that
/// already knows its code keeps it.
pub trait UseCodeOnError<T>: Sized {
    fn use_code_on_error(self, code: u16) -> Result<T, ErrorWithCode>;
}

impl<T> UseCodeOnError<T> for Result<T, ErrorKind> {
    fn use_code_on_error(self, code: u16) -> (r: Result<T, ErrorWithCode>)
        ensures
            match self {
                Ok(v) => r == Ok::<T, ErrorWithCode>(v),
                Err(e) => r matches Err(we) && we.error == e && we.code == Some(code),
            },
    {
        match self {
            Ok(v) => Ok(v),
            Err(error) => Err(ErrorWithCode { error, code: Some(code) }),
        }
    }
}

impl<T> UseCodeOnError<T> for Result<T, ErrorWithCode> {
    fn use_code_on_error(self, _code: u16) -> (r: Result<T, ErrorWithCode>)
        ensures
            r == self,
    {
        self
    }
}

} // verus!
