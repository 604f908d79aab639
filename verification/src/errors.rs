//! The outcomes that every operation reports, and the one place where an
//! outcome is turned into a status code and a response envelope.

use vstd::prelude::*;

verus! {

pub type AppResult<T> = Result<T, AppError>;

/// Why an operation was rejected.
#[derive(Debug, PartialEq, Eq)]
pub enum AppError {
    /// A session token could not be produced.
    TokenError,
    /// The storage layer failed.  The text is the storage layer's own and is
    /// never sent to a caller.
    DbError(String),
    /// A rejection with the status code and message to send.
    Custom { status_code: u16, error: String },
    /// Any other rejection; the text is sent with a client-error status.
    Other(String),
}

/// What an `AppError` holds, with each text as a sequence of characters.
pub enum AppErrorView {
    TokenError,
    DbError(Seq<char>),
    Custom { status_code: u16, error: Seq<char> },
    Other(Seq<char>),
}

impl View for AppError {
    type V = AppErrorView;

    open spec fn view(&self) -> AppErrorView {
        match *self {
            AppError::TokenError => AppErrorView::TokenError,
            AppError::DbError(detail) => AppErrorView::DbError(detail@),
            AppError::Custom { status_code, error } => AppErrorView::Custom {
                status_code,
                error: error@,
            },
            AppError::Other(text) => AppErrorView::Other(text@),
        }
    }
}

/// A status code that a response can carry: three digits.
pub open spec fn valid_status(code: u16) -> bool {
    100 <= code < 1000
}

/// The rejection `Custom { status_code, error }`, as a view.
pub open spec fn custom(status_code: u16, error: Seq<char>) -> AppErrorView {
    AppErrorView::Custom { status_code, error }
}

impl AppErrorView {
    /// A `Custom` rejection is well formed when its status code can be sent.
    pub open spec fn wf(self) -> bool {
        self matches AppErrorView::Custom { status_code, .. } ==> valid_status(status_code)
    }

    /// The status code that the rejection is answered with.
    pub open spec fn status(self) -> u16 {
        match self {
            AppErrorView::Custom { status_code, .. } => status_code,
            AppErrorView::DbError(_) => 500,
            AppErrorView::TokenError => 400,
            AppErrorView::Other(_) => 400,
        }
    }

    /// The message that the rejection is answered with.  A storage failure is
    /// answered with a fixed text, whatever the storage layer reported.  The
    /// fixed texts are part of the interface, letter for letter: clients
    /// match on them.
    pub open spec fn message(self) -> Seq<char> {
        match self {
            AppErrorView::Custom { error, .. } => error,
            AppErrorView::DbError(_) => "query execution error"@,
            AppErrorView::TokenError => "failde to generate jwt"@,
            AppErrorView::Other(text) => text,
        }
    }
}

/// The envelope of every response: either an error text or a payload.
#[derive(Debug, PartialEq, Eq)]
pub struct CommonResponse<T> {
    pub error: Option<String>,
    pub data: Option<T>,
}

impl<T> CommonResponse<T> {
    /// An envelope carries exactly one of `error` and `data`.
    pub open spec fn wf(&self) -> bool {
        self.error.is_some() != self.data.is_some()
    }

    /// The successful envelope around `d`.
    pub fn json_data(d: T) -> (r: AppResult<CommonResponse<T>>)
        ensures
            r matches Ok(envelope) && envelope.error is None && envelope.data == Some(d),
    {
        Ok(CommonResponse { error: None, data: Some(d) })
    }
}

/// `r` is the answer `expected`: the successful envelope around the expected
/// payload, which carries no error text, or the expected rejection.
pub open spec fn answers<T>(
    r: AppResult<CommonResponse<T>>,
    expected: Result<T, AppErrorView>,
) -> bool {
    match expected {
        Ok(d) => r matches Ok(envelope) && envelope.error is None && envelope.data == Some(d),
        Err(rejection) => r matches Err(e) && e@ == rejection,
    }
}

/// A rejection as it leaves the service: a status code and an envelope that
/// carries the message and no payload.
#[derive(Debug, PartialEq, Eq)]
pub struct ErrorResponse {
    pub status: u16,
    pub body: CommonResponse<()>,
}

impl ErrorResponse {
    /// The envelope carries `message` and nothing else.
    pub open spec fn carries(&self, status: u16, message: Seq<char>) -> bool {
        &&& self.status == status
        &&& self.body.error matches Some(text)
        &&& text@ == message
        &&& self.body.data is None
    }
}

impl AppError {
    /// Turns the rejection into the response that is sent for it.
    pub fn into_response(self) -> (r: ErrorResponse)
        requires
            self@.wf(),
        ensures
            r.carries(self@.status(), self@.message()),
            valid_status(r.status),
            r.body.wf(),
    {
        let (status, message): (u16, String) = match self {
            AppError::Custom { status_code, error } => (status_code, error),
            AppError::DbError(_) => (500, "query execution error".to_owned()),
            AppError::TokenError => (400, "failde to generate jwt".to_owned()),
            AppError::Other(text) => (400, text),
        };
        ErrorResponse { status, body: CommonResponse { error: Some(message), data: None } }
    }
}

} // verus!
