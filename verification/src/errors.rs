//! Error taxonomy of the orchestrator: which stage an operation failed in,
//! and what kind of failure it was.

use vstd::prelude::*;

verus! {

/// The stage of an operation in which an error arose.
#[derive(Clone, Copy, PartialEq, Eq, Structural, Debug)]
pub enum Stage {
    Search,
    MetadataFetch,
    Download,
    Build,
    Install,
    Uninstall,
}

/// What went wrong. `BuildFailed` and `SubprocessError` carry the captured
/// standard-error text verbatim; `AlreadyBusy` is the rejection of a start
/// request while an operation is in flight and never mutates any state.
#[derive(Debug)]
pub enum OpError {
    TransportError,
    MalformedResponse,
    NotFound,
    UnexpectedContentType,
    ExtractionError,
    BuildFailed { stderr: String },
    ArtifactNotFound,
    SubprocessError { exit_code: i32, stderr: String },
    AlreadyBusy,
}

/// Mathematical image of an `OpError`: strings become character sequences.
#[verifier::ext_equal]
pub enum ErrorKindView {
    TransportError,
    MalformedResponse,
    NotFound,
    UnexpectedContentType,
    ExtractionError,
    BuildFailed { stderr: Seq<char> },
    ArtifactNotFound,
    SubprocessError { exit_code: i32, stderr: Seq<char> },
    AlreadyBusy,
}

impl View for OpError {
    type V = ErrorKindView;

    open spec fn view(&self) -> ErrorKindView {
        match self {
            OpError::TransportError => ErrorKindView::TransportError,
            OpError::MalformedResponse => ErrorKindView::MalformedResponse,
            OpError::NotFound => ErrorKindView::NotFound,
            OpError::UnexpectedContentType => ErrorKindView::UnexpectedContentType,
            OpError::ExtractionError => ErrorKindView::ExtractionError,
            OpError::BuildFailed { stderr } => ErrorKindView::BuildFailed { stderr: stderr@ },
            OpError::ArtifactNotFound => ErrorKindView::ArtifactNotFound,
            OpError::SubprocessError { exit_code, stderr } => ErrorKindView::SubprocessError {
                exit_code: *exit_code,
                stderr: stderr@,
            },
            OpError::AlreadyBusy => ErrorKindView::AlreadyBusy,
        }
    }
}

/// An error published to the shared state: the failure kind tagged with the
/// stage it occurred in.
#[derive(Debug)]
pub struct ErrorInfo {
    pub stage: Stage,
    pub kind: OpError,
}

/// Mathematical image of an `ErrorInfo`.
#[verifier::ext_equal]
pub struct ErrorInfoView {
    pub stage: Stage,
    pub kind: ErrorKindView,
}

impl View for ErrorInfo {
    type V = ErrorInfoView;

    open spec fn view(&self) -> ErrorInfoView {
        ErrorInfoView { stage: self.stage, kind: self.kind@ }
    }
}

/// A copy of an `OpError` with the same image.
pub fn clone_op_error(e: &OpError) -> (r: OpError)
    ensures
        r@ == e@,
{
    match e {
        OpError::TransportError => OpError::TransportError,
        OpError::MalformedResponse => OpError::MalformedResponse,
        OpError::NotFound => OpError::NotFound,
        OpError::UnexpectedContentType => OpError::UnexpectedContentType,
        OpError::ExtractionError => OpError::ExtractionError,
        OpError::BuildFailed { stderr } => OpError::BuildFailed { stderr: stderr.clone() },
        OpError::ArtifactNotFound => OpError::ArtifactNotFound,
        OpError::SubprocessError { exit_code, stderr } => OpError::SubprocessError {
            exit_code: *exit_code,
            stderr: stderr.clone(),
        },
        OpError::AlreadyBusy => OpError::AlreadyBusy,
    }
}

/// A copy of an `ErrorInfo` with the same image.
pub fn clone_error_info(e: &ErrorInfo) -> (r: ErrorInfo)
    ensures
        r@ == e@,
{
    ErrorInfo { stage: e.stage, kind: clone_op_error(&e.kind) }
}

} // verus!
