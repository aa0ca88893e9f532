//! The chunked copy of one asset into its staging file.

use crate::error::{failure_spec, result_view, ErrorKind, ErrorView, Operation, PipelineError};
use vstd::prelude::*;

verus! {

/// Whether an HTTP status code reports success.
pub open spec fn is_success_status(status: u16) -> bool {
    200 <= status <= 299
}

/// The failure of a transfer whose server answered with a status that does
/// not report success.
pub open spec fn status_failure() -> ErrorView {
    ErrorView {
        kind: ErrorKind::Transfer,
        message: "The server answered with a status other than success."@,
    }
}

/// Where a transfer stands.
#[derive(Debug, PartialEq, Eq)]
pub enum TransferPhase {
    /// The request for the asset is under way.
    Requesting,
    /// The staging file is being created.
    Creating,
    /// Waiting for the next chunk of the body.
    Receiving,
    /// The chunk last received is being written.
    Writing,
    /// The end of the body was reached; buffered bytes are being flushed.
    Flushing,
    /// The transfer is over.
    Done(Result<(), PipelineError>),
}

/// The mathematical value of a [`TransferPhase`].
pub enum TransferPhaseView {
    Requesting,
    Creating,
    Receiving,
    Writing,
    Flushing,
    Done(Result<(), ErrorView>),
}

impl View for TransferPhase {
    type V = TransferPhaseView;

    open spec fn view(&self) -> TransferPhaseView {
        match self {
            TransferPhase::Requesting => TransferPhaseView::Requesting,
            TransferPhase::Creating => TransferPhaseView::Creating,
            TransferPhase::Receiving => TransferPhaseView::Receiving,
            TransferPhase::Writing => TransferPhaseView::Writing,
            TransferPhase::Flushing => TransferPhaseView::Flushing,
            TransferPhase::Done(result) => TransferPhaseView::Done(result_view(*result)),
        }
    }
}

/// What the caller reports after carrying out a [`TransferAction`].
#[derive(Debug, PartialEq, Eq)]
pub enum TransferEvent {
    /// The server answered the request with this status code.
    Responded(u16),
    /// The file operation asked for succeeded.
    Completed,
    /// A chunk of the body arrived.
    Chunk,
    /// The body has ended.
    EndOfBody,
    /// The operation asked for failed, for the reason given.
    Failed(String),
}

/// The mathematical value of a [`TransferEvent`].
pub enum TransferEventView {
    Responded(u16),
    Completed,
    Chunk,
    EndOfBody,
    Failed(Seq<char>),
}

impl View for TransferEvent {
    type V = TransferEventView;

    open spec fn view(&self) -> TransferEventView {
        match self {
            TransferEvent::Responded(status) => TransferEventView::Responded(*status),
            TransferEvent::Completed => TransferEventView::Completed,
            TransferEvent::Chunk => TransferEventView::Chunk,
            TransferEvent::EndOfBody => TransferEventView::EndOfBody,
            TransferEvent::Failed(cause) => TransferEventView::Failed(cause@),
        }
    }
}

/// What the caller has to do next for a transfer.
#[derive(Debug, PartialEq, Eq)]
pub enum TransferAction {
    /// Request `url` and report the status of the answer.
    SendRequest { url: String },
    /// Create the file at `path`, empty.
    CreateFile { path: String },
    /// Wait for the next chunk of the body.
    ReadChunk,
    /// Write the chunk last received to the file.
    WriteChunk,
    /// Flush what is buffered to the file.
    Flush,
    /// Nothing is left to do: the transfer ended as given.
    Finish(Result<(), PipelineError>),
}

/// The mathematical value of a [`TransferAction`].
pub enum TransferActionView {
    SendRequest { url: Seq<char> },
    CreateFile { path: Seq<char> },
    ReadChunk,
    WriteChunk,
    Flush,
    Finish(Result<(), ErrorView>),
}

impl View for TransferAction {
    type V = TransferActionView;

    open spec fn view(&self) -> TransferActionView {
        match self {
            TransferAction::SendRequest { url } => TransferActionView::SendRequest { url: url@ },
            TransferAction::CreateFile { path } => TransferActionView::CreateFile { path: path@ },
            TransferAction::ReadChunk => TransferActionView::ReadChunk,
            TransferAction::WriteChunk => TransferActionView::WriteChunk,
            TransferAction::Flush => TransferActionView::Flush,
            TransferAction::Finish(result) => TransferActionView::Finish(result_view(*result)),
        }
    }
}

/// The copy of the bytes behind `url` into the file at `path`.
#[derive(Debug, PartialEq, Eq)]
pub struct Transfer {
    pub url: String,
    pub path: String,
    pub phase: TransferPhase,
}

/// The mathematical value of a [`Transfer`].
pub struct TransferView {
    pub url: Seq<char>,
    pub path: Seq<char>,
    pub phase: TransferPhaseView,
}

impl View for Transfer {
    type V = TransferView;

    open spec fn view(&self) -> TransferView {
        TransferView { url: self.url@, path: self.path@, phase: self.phase@ }
    }
}

/// The operation that a transfer in `phase` waits for.
pub open spec fn operation_of(phase: TransferPhaseView) -> Operation {
    match phase {
        TransferPhaseView::Requesting => Operation::RequestAsset,
        TransferPhaseView::Creating => Operation::CreateFile,
        TransferPhaseView::Receiving => Operation::ReadBody,
        TransferPhaseView::Writing => Operation::WriteBody,
        _ => Operation::FlushBody,
    }
}

/// The phase that follows `phase` once the caller reports `event`.
///
/// The file is created only after the server answered with success; chunks
/// are written one by one as they arrive; the transfer succeeds when the
/// flush after the last chunk does. The first failure ends it. A report
/// that answers no pending request changes nothing.
pub open spec fn next_transfer_phase(
    phase: TransferPhaseView,
    event: TransferEventView,
) -> TransferPhaseView {
    match (phase, event) {
        (TransferPhaseView::Done(_), _) => phase,
        (_, TransferEventView::Failed(cause)) => TransferPhaseView::Done(
            Err(failure_spec(operation_of(phase), cause)),
        ),
        (TransferPhaseView::Requesting, TransferEventView::Responded(status)) => {
            if is_success_status(status) {
                TransferPhaseView::Creating
            } else {
                TransferPhaseView::Done(Err(status_failure()))
            }
        },
        (TransferPhaseView::Creating, TransferEventView::Completed) => TransferPhaseView::Receiving,
        (TransferPhaseView::Receiving, TransferEventView::Chunk) => TransferPhaseView::Writing,
        (TransferPhaseView::Receiving, TransferEventView::EndOfBody) => TransferPhaseView::Flushing,
        (TransferPhaseView::Writing, TransferEventView::Completed) => TransferPhaseView::Receiving,
        (TransferPhaseView::Flushing, TransferEventView::Completed) => TransferPhaseView::Done(
            Ok(()),
        ),
        _ => phase,
    }
}

/// The transfer after the caller reports `event`.
pub open spec fn transfer_step_spec(transfer: TransferView, event: TransferEventView) -> TransferView {
    TransferView { phase: next_transfer_phase(transfer.phase, event), ..transfer }
}

/// What a transfer in this state asks of the caller.
pub open spec fn transfer_action_spec(transfer: TransferView) -> TransferActionView {
    match transfer.phase {
        TransferPhaseView::Requesting => TransferActionView::SendRequest { url: transfer.url },
        TransferPhaseView::Creating => TransferActionView::CreateFile { path: transfer.path },
        TransferPhaseView::Receiving => TransferActionView::ReadChunk,
        TransferPhaseView::Writing => TransferActionView::WriteChunk,
        TransferPhaseView::Flushing => TransferActionView::Flush,
        TransferPhaseView::Done(result) => TransferActionView::Finish(result),
    }
}

impl Transfer {
    /// A transfer of `url` into `path` that has not begun.
    pub fn new(url: String, path: String) -> (res: Transfer)
        ensures
            res@ == (TransferView {
                url: url@,
                path: path@,
                phase: TransferPhaseView::Requesting,
            }),
    {
        Transfer { url, path, phase: TransferPhase::Requesting }
    }

    /// What the caller has to do next.
    pub fn action(&self) -> (res: TransferAction)
        ensures
            res@ == transfer_action_spec(self@),
    {
        match &self.phase {
            TransferPhase::Requesting => TransferAction::SendRequest { url: self.url.clone() },
            TransferPhase::Creating => TransferAction::CreateFile { path: self.path.clone() },
            TransferPhase::Receiving => TransferAction::ReadChunk,
            TransferPhase::Writing => TransferAction::WriteChunk,
            TransferPhase::Flushing => TransferAction::Flush,
            TransferPhase::Done(Ok(_)) => TransferAction::Finish(Ok(())),
            TransferPhase::Done(Err(error)) => TransferAction::Finish(Err(error.clone())),
        }
    }

    /// Takes the caller's report on the action last asked for.
    pub fn step(self, event: TransferEvent) -> (res: Transfer)
        ensures
            res@ == transfer_step_spec(self@, event@),
    {
        let Transfer { url, path, phase } = self;
        let next = match (phase, event) {
            (TransferPhase::Done(result), _) => TransferPhase::Done(result),
            (TransferPhase::Requesting, TransferEvent::Failed(cause)) => TransferPhase::Done(
                Err(PipelineError::of(Operation::RequestAsset, cause.as_str())),
            ),
            (TransferPhase::Creating, TransferEvent::Failed(cause)) => TransferPhase::Done(
                Err(PipelineError::of(Operation::CreateFile, cause.as_str())),
            ),
            (TransferPhase::Receiving, TransferEvent::Failed(cause)) => TransferPhase::Done(
                Err(PipelineError::of(Operation::ReadBody, cause.as_str())),
            ),
            (TransferPhase::Writing, TransferEvent::Failed(cause)) => TransferPhase::Done(
                Err(PipelineError::of(Operation::WriteBody, cause.as_str())),
            ),
            (TransferPhase::Flushing, TransferEvent::Failed(cause)) => TransferPhase::Done(
                Err(PipelineError::of(Operation::FlushBody, cause.as_str())),
            ),
            (TransferPhase::Requesting, TransferEvent::Responded(status)) => {
                if 200 <= status && status <= 299 {
                    TransferPhase::Creating
                } else {
                    TransferPhase::Done(
                        Err(
                            PipelineError::new(
                                ErrorKind::Transfer,
                                "The server answered with a status other than success.",
                            ),
                        ),
                    )
                }
            },
            (TransferPhase::Creating, TransferEvent::Completed) => TransferPhase::Receiving,
            (TransferPhase::Receiving, TransferEvent::Chunk) => TransferPhase::Writing,
            (TransferPhase::Receiving, TransferEvent::EndOfBody) => TransferPhase::Flushing,
            (TransferPhase::Writing, TransferEvent::Completed) => TransferPhase::Receiving,
            (TransferPhase::Flushing, TransferEvent::Completed) => TransferPhase::Done(Ok(())),
            (phase, _) => phase,
        };
        Transfer { url, path, phase: next }
    }

    /// How the transfer ended, once it has.
    pub fn result(&self) -> (res: Option<Result<(), PipelineError>>)
        ensures
            match self@.phase {
                TransferPhaseView::Done(result) => res matches Some(r) && result_view(r) == result,
                _ => res is None,
            },
    {
        match &self.phase {
            TransferPhase::Done(Ok(_)) => Some(Ok(())),
            TransferPhase::Done(Err(error)) => Some(Err(error.clone())),
            _ => None,
        }
    }
}

} // verus!
