//! Errors of the service and the gRPC statuses they are answered with.
use vstd::prelude::*;

verus! {

/// The status codes that the service answers with.
#[derive(Clone, Copy, Debug, PartialEq, Eq, Structural)]
pub enum Code {
    Internal,
    InvalidArgument,
}

/// A failed reply: a code and the text sent with it.
#[derive(Debug, PartialEq, Eq)]
pub struct Status {
    pub code: Code,
    pub message: String,
}

/// What a [`Status`] says.
pub struct StatusView {
    pub code: Code,
    pub message: Seq<char>,
}

impl View for Status {
    type V = StatusView;

    open spec fn view(&self) -> StatusView {
        StatusView { code: self.code, message: self.message@ }
    }
}

/// The status that reports an internal error with the text `message`.
pub open spec fn internal(message: Seq<char>) -> StatusView {
    StatusView { code: Code::Internal, message }
}

/// The status that rejects an argument with the text `message`.
pub open spec fn invalid_argument(message: Seq<char>) -> StatusView {
    StatusView { code: Code::InvalidArgument, message }
}

impl Status {
    pub fn internal(message: String) -> (r: Status)
        ensures
            r@ == internal(message@),
    {
        Status { code: Code::Internal, message }
    }

    pub fn invalid_argument(message: String) -> (r: Status)
        ensures
            r@ == invalid_argument(message@),
    {
        Status { code: Code::InvalidArgument, message }
    }
}

/// Why the node state could not be locked for a request.
#[derive(Clone, Copy, Debug, PartialEq, Eq, Structural)]
pub enum CesealLockError {
    /// A copy of the state is being advanced and will replace this one.
    RcuDispatching,
    /// The node runs in safe mode, which serves a few requests only.
    SafeMode,
}

/// The text of a lock error.
pub open spec fn lock_message(e: CesealLockError) -> Seq<char> {
    match e {
        CesealLockError::RcuDispatching => "RCU in progress, please try again later"@,
        CesealLockError::SafeMode => "This RPC is disabled in safe mode"@,
    }
}

impl CesealLockError {
    pub fn message(self) -> (r: String)
        ensures
            r@ == lock_message(self),
    {
        match self {
            CesealLockError::RcuDispatching => "RCU in progress, please try again later".to_string(),
            CesealLockError::SafeMode => "This RPC is disabled in safe mode".to_string(),
        }
    }

    /// A lock error is answered as an internal error.
    pub fn into_status(self) -> (r: Status)
        ensures
            r@ == internal(lock_message(self)),
    {
        Status::internal(self.message())
    }
}

/// What can go wrong while a request is handled.
#[derive(Debug, PartialEq, Eq)]
pub enum CesealServiceError {
    CesealLock(CesealLockError),
    /// The request parameters could not be decoded.
    DecodeError(String),
    /// The request was decoded, and handling it failed.
    AppError(String),
    /// An error of a lower layer, by its text.
    Anyhow(String),
}

/// What a [`CesealServiceError`] says.
pub enum ServiceErrorView {
    CesealLock(CesealLockError),
    DecodeError(Seq<char>),
    AppError(Seq<char>),
    Anyhow(Seq<char>),
}

impl View for CesealServiceError {
    type V = ServiceErrorView;

    open spec fn view(&self) -> ServiceErrorView {
        match self {
            CesealServiceError::CesealLock(e) => ServiceErrorView::CesealLock(*e),
            CesealServiceError::DecodeError(s) => ServiceErrorView::DecodeError(s@),
            CesealServiceError::AppError(s) => ServiceErrorView::AppError(s@),
            CesealServiceError::Anyhow(s) => ServiceErrorView::Anyhow(s@),
        }
    }
}

impl ServiceErrorView {
    /// The text that the error is displayed with.
    pub open spec fn text(self) -> Seq<char> {
        match self {
            ServiceErrorView::CesealLock(e) => lock_message(e),
            ServiceErrorView::DecodeError(s) => s,
            ServiceErrorView::AppError(s) => s,
            ServiceErrorView::Anyhow(s) => s,
        }
    }
}

/// The application error with the text `message`.
pub open spec fn app_error(message: Seq<char>) -> ServiceErrorView {
    ServiceErrorView::AppError(message)
}

impl CesealServiceError {
    /// The text of the error, with no prefix of its own.
    pub fn message(self) -> (r: String)
        ensures
            r@ == self@.text(),
    {
        match self {
            CesealServiceError::CesealLock(e) => e.message(),
            CesealServiceError::DecodeError(s) => s,
            CesealServiceError::AppError(s) => s,
            CesealServiceError::Anyhow(s) => s,
        }
    }

    /// Every service error is answered as an internal error with its text.
    pub fn into_status(self) -> (r: Status)
        ensures
            r@ == internal(self@.text()),
    {
        Status::internal(self.message())
    }
}

/// Errors of the node that no request handler raises as a service error.
#[derive(Debug, PartialEq, Eq)]
pub enum Error {
    /// An error of a lower layer, by its text.
    Anyhow(String),
    /// A shutdown was asked for and no server is running.
    ExternalServerAlreadyClosed,
}

/// The text of an [`Error`].
pub open spec fn error_message(e: Error) -> Seq<char> {
    match e {
        Error::Anyhow(s) => s@,
        Error::ExternalServerAlreadyClosed => "External server already closed"@,
    }
}

impl Error {
    pub fn message(self) -> (r: String)
        ensures
            r@ == error_message(self),
    {
        match self {
            Error::Anyhow(s) => s,
            Error::ExternalServerAlreadyClosed => "External server already closed".to_string(),
        }
    }

    pub fn into_status(self) -> (r: Status)
        ensures
            r@ == internal(error_message(self)),
    {
        Status::internal(self.message())
    }
}

/// A parameter that could not be decoded, by the decoder's text, answered at once.
pub fn to_status(text: String) -> (r: Status)
    ensures
        r@ == internal(text@),
{
    Status::internal(text)
}

/// A parameter that could not be decoded, by the decoder's text.
pub fn decode_error(text: String) -> (r: CesealServiceError)
    ensures
        r@ == ServiceErrorView::DecodeError(text@),
{
    CesealServiceError::DecodeError(text)
}

/// An application error from a text that is meant for display.
pub fn from_display(text: String) -> (r: CesealServiceError)
    ensures
        r@ == app_error(text@),
{
    CesealServiceError::AppError(text)
}

/// An application error from the debug form of an error, `debug_text`.
pub fn from_debug(debug_text: String) -> (r: CesealServiceError)
    ensures
        r@ == app_error(debug_text@),
{
    CesealServiceError::AppError(debug_text)
}

/// An application error with a fixed text.
pub(crate) fn app_err(text: &str) -> (r: CesealServiceError)
    ensures
        r@ == app_error(text@),
{
    from_display(text.to_string())
}

/// An internal error with a fixed text, as a status.
pub(crate) fn internal_err(text: &str) -> (r: Status)
    ensures
        r@ == internal(text@),
{
    app_err(text).into_status()
}

} // verus!
