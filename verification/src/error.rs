//! The failures that the pipeline distinguishes.

use vstd::prelude::*;

verus! {

/// The class of a failure.
#[derive(Debug, Clone, Copy, PartialEq, Eq, Structural)]
pub enum ErrorKind {
    /// The transport failed while talking to the catalog.
    Remote,
    /// A response did not have the expected shape.
    Decode,
    /// The transcoder exited with a non-zero status.
    Subprocess,
    /// Bytes could not be streamed to their destination.
    Transfer,
    /// A file could not be created, renamed or deleted.
    Filesystem,
}

/// An operation of the caller that can fail.
#[derive(Debug, Clone, Copy, PartialEq, Eq, Structural)]
pub enum Operation {
    /// Sending a request to the catalog.
    SendRequest,
    /// Decoding the catalog's answer.
    DecodeResponse,
    /// Running the transcoder.
    RunTranscoder,
    /// Requesting an asset.
    RequestAsset,
    /// Creating the staging file.
    CreateFile,
    /// Reading the next chunk of an asset.
    ReadBody,
    /// Writing a chunk to the staging file.
    WriteBody,
    /// Flushing the staging file.
    FlushBody,
    /// Renaming the staging file to the final path.
    RenameFile,
    /// Deleting the staging file.
    RemoveFile,
}

/// The class of the failure of an operation: talking to the catalog fails
/// remotely, an answer of the wrong shape fails to decode, the transcoder
/// fails as a subprocess, streaming bytes fails as a transfer, and creating,
/// renaming or deleting a file fails in the filesystem.
pub open spec fn kind_of(operation: Operation) -> ErrorKind {
    match operation {
        Operation::SendRequest => ErrorKind::Remote,
        Operation::DecodeResponse => ErrorKind::Decode,
        Operation::RunTranscoder => ErrorKind::Subprocess,
        Operation::RequestAsset => ErrorKind::Transfer,
        Operation::ReadBody => ErrorKind::Transfer,
        Operation::WriteBody => ErrorKind::Transfer,
        Operation::FlushBody => ErrorKind::Transfer,
        Operation::CreateFile => ErrorKind::Filesystem,
        Operation::RenameFile => ErrorKind::Filesystem,
        Operation::RemoveFile => ErrorKind::Filesystem,
    }
}

/// The words that say which operation failed.
pub open spec fn context_of(operation: Operation) -> Seq<char> {
    match operation {
        Operation::SendRequest => "Failed to send GET request."@,
        Operation::DecodeResponse => "Failed to deserialize response."@,
        Operation::RunTranscoder => "Failed to run ffmpeg."@,
        Operation::RequestAsset => "Failed to request."@,
        Operation::CreateFile => "Failed to create output file."@,
        Operation::ReadBody => "Failed to read stream."@,
        Operation::WriteBody => "Failed to write to stream."@,
        Operation::FlushBody => "Failed to flush writer stream."@,
        Operation::RenameFile => "Failed to rename temporary file."@,
        Operation::RemoveFile => "Failed to remove temporary file."@,
    }
}

/// A diagnostic that names the step that failed, then its cause.
pub open spec fn with_context(context: Seq<char>, cause: Seq<char>) -> Seq<char> {
    context + ": "@ + cause
}

/// The failure of `operation` for the reason `cause`.
pub open spec fn failure_spec(operation: Operation, cause: Seq<char>) -> ErrorView {
    ErrorView { kind: kind_of(operation), message: with_context(context_of(operation), cause) }
}

/// A setting that the pipeline cannot run with.
#[derive(Debug, Clone, Copy, PartialEq, Eq, Structural)]
pub enum ConfigError {
    /// The token cannot be sent in a request header.
    InvalidToken,
    /// The number of parallel downloads is zero.
    NoJobs,
}

/// One failure: its class and a diagnostic text.
#[derive(Debug, PartialEq, Eq)]
pub struct PipelineError {
    pub kind: ErrorKind,
    pub message: String,
}

/// The mathematical value of a [`PipelineError`].
pub struct ErrorView {
    pub kind: ErrorKind,
    pub message: Seq<char>,
}

impl View for PipelineError {
    type V = ErrorView;

    open spec fn view(&self) -> ErrorView {
        ErrorView { kind: self.kind, message: self.message@ }
    }
}

/// The mathematical value of a result that carries nothing on success.
pub open spec fn result_view(result: Result<(), PipelineError>) -> Result<(), ErrorView> {
    match result {
        Ok(_) => Ok(()),
        Err(error) => Err(error@),
    }
}

impl Clone for PipelineError {
    fn clone(&self) -> (res: Self)
        ensures
            res == *self,
    {
        PipelineError { kind: self.kind, message: self.message.clone() }
    }
}

/// The name of a class of failure, as descriptions show it.
pub open spec fn kind_label(kind: ErrorKind) -> Seq<char> {
    match kind {
        ErrorKind::Remote => "remote error"@,
        ErrorKind::Decode => "decode error"@,
        ErrorKind::Subprocess => "subprocess error"@,
        ErrorKind::Transfer => "transfer error"@,
        ErrorKind::Filesystem => "filesystem error"@,
    }
}

/// The description of a failure: its class, then its diagnostic.
pub open spec fn description(error: ErrorView) -> Seq<char> {
    kind_label(error.kind) + ": "@ + error.message
}

impl PipelineError {
    /// Describes the failure for a reader.
    pub fn describe(&self) -> (res: String)
        ensures
            res@ == description(self@),
    {
        let label = match self.kind {
            ErrorKind::Remote => "remote error",
            ErrorKind::Decode => "decode error",
            ErrorKind::Subprocess => "subprocess error",
            ErrorKind::Transfer => "transfer error",
            ErrorKind::Filesystem => "filesystem error",
        };
        String::from_str(label).concat(": ").concat(self.message.as_str())
    }

    /// The failure of `operation` for the reason `cause`.
    pub fn of(operation: Operation, cause: &str) -> (res: PipelineError)
        ensures
            res@ == failure_spec(operation, cause@),
    {
        let (kind, context) = match operation {
            Operation::SendRequest => (ErrorKind::Remote, "Failed to send GET request."),
            Operation::DecodeResponse => (ErrorKind::Decode, "Failed to deserialize response."),
            Operation::RunTranscoder => (ErrorKind::Subprocess, "Failed to run ffmpeg."),
            Operation::RequestAsset => (ErrorKind::Transfer, "Failed to request."),
            Operation::CreateFile => (ErrorKind::Filesystem, "Failed to create output file."),
            Operation::ReadBody => (ErrorKind::Transfer, "Failed to read stream."),
            Operation::WriteBody => (ErrorKind::Transfer, "Failed to write to stream."),
            Operation::FlushBody => (ErrorKind::Transfer, "Failed to flush writer stream."),
            Operation::RenameFile => (ErrorKind::Filesystem, "Failed to rename temporary file."),
            Operation::RemoveFile => (ErrorKind::Filesystem, "Failed to remove temporary file."),
        };
        PipelineError { kind, message: String::from_str(context).concat(": ").concat(cause) }
    }

    /// A failure of class `kind` with the diagnostic `message`.
    pub fn new(kind: ErrorKind, message: &str) -> (res: PipelineError)
        ensures
            res@ == (ErrorView { kind, message: message@ }),
    {
        PipelineError { kind, message: String::from_str(message) }
    }
}

} // verus!
