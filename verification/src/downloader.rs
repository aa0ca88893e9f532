//! One download: which transport an asset takes, where it is staged, and in
//! which order the file operations happen.

use crate::error::{description, result_view, ErrorKind, ErrorView, PipelineError};
use crate::paths::{add_extension, join_path, joined_path, path_with_added_extension};
use crate::text::{decode_lossy, ends_with, utf8_lossy, views};
use vstd::prelude::*;

verus! {

/// The program that remuxes a stream into a container file.
pub const TRANSCODER: &'static str = "ffmpeg";

/// How the bytes of an asset reach the staging file.
#[derive(Debug, Clone, Copy, PartialEq, Eq, Structural)]
pub enum Transport {
    /// A stream playlist: the transcoder remuxes it.
    Remux,
    /// A container file: its bytes are copied as they arrive.
    Stream,
    /// Anything else: the asset is not downloaded.
    Unsupported,
}

/// The transport of an asset, read off the end of its URL.
pub open spec fn transport_of(video_url: Seq<char>) -> Transport {
    if ".m3u8"@.is_suffix_of(video_url) {
        Transport::Remux
    } else if ".mp4"@.is_suffix_of(video_url) {
        Transport::Stream
    } else {
        Transport::Unsupported
    }
}

/// Selects the transport for `video_url` by its suffix.
pub fn select_transport(video_url: &str) -> (res: Transport)
    ensures
        res == transport_of(video_url@),
{
    if ends_with(video_url, ".m3u8") {
        Transport::Remux
    } else if ends_with(video_url, ".mp4") {
        Transport::Stream
    } else {
        Transport::Unsupported
    }
}

/// The arguments with which the transcoder copies both streams of
/// `video_url` into an MP4 container at `saved_to`, adapting the audio
/// bitstream to the container.
pub open spec fn remux_arguments_spec(video_url: Seq<char>, saved_to: Seq<char>) -> Seq<Seq<char>> {
    seq![
        "-i"@,
        video_url,
        "-c"@,
        "copy"@,
        "-bsf:a"@,
        "aac_adtstoasc"@,
        "-f"@,
        "mp4"@,
        saved_to,
    ]
}

/// Builds the transcoder's argument list for one remux.
pub fn remux_arguments(video_url: &str, saved_to: &str) -> (res: Vec<String>)
    ensures
        views(res@) == remux_arguments_spec(video_url@, saved_to@),
{
    let mut arguments: Vec<String> = Vec::new();
    arguments.push(String::from_str("-i"));
    arguments.push(String::from_str(video_url));
    arguments.push(String::from_str("-c"));
    arguments.push(String::from_str("copy"));
    arguments.push(String::from_str("-bsf:a"));
    arguments.push(String::from_str("aac_adtstoasc"));
    arguments.push(String::from_str("-f"));
    arguments.push(String::from_str("mp4"));
    arguments.push(String::from_str(saved_to));
    arguments
}

/// How one download ended.
#[derive(Debug, PartialEq, Eq)]
pub enum DownloadOutcome {
    /// The asset is now at its final path.
    Success,
    /// Nothing was transferred: the final file was already there, or the
    /// asset has no supported transport.
    Skipped,
    /// The transfer or the publication failed.
    Failure(PipelineError),
}

/// The mathematical value of a [`DownloadOutcome`].
pub enum OutcomeView {
    Success,
    Skipped,
    Failure(ErrorView),
}

impl View for DownloadOutcome {
    type V = OutcomeView;

    open spec fn view(&self) -> OutcomeView {
        match self {
            DownloadOutcome::Success => OutcomeView::Success,
            DownloadOutcome::Skipped => OutcomeView::Skipped,
            DownloadOutcome::Failure(error) => OutcomeView::Failure(error@),
        }
    }
}

impl Clone for DownloadOutcome {
    fn clone(&self) -> (res: Self)
        ensures
            res == *self,
    {
        match self {
            DownloadOutcome::Success => DownloadOutcome::Success,
            DownloadOutcome::Skipped => DownloadOutcome::Skipped,
            DownloadOutcome::Failure(error) => DownloadOutcome::Failure(error.clone()),
        }
    }
}

/// Where a download stands.
#[derive(Debug, PartialEq, Eq)]
pub enum Phase {
    /// Asking whether the final file is already there.
    CheckingFinal,
    /// The transcoder is writing the staging file.
    Remuxing,
    /// The asset's bytes are being copied into the staging file.
    Streaming,
    /// The staging file is being renamed to the final path.
    Publishing,
    /// After the failure held here: asking whether a staging file is left.
    CheckingTemp(PipelineError),
    /// After the failure held here: the staging file is being deleted.
    Removing(PipelineError),
    /// The download is over.
    Done(DownloadOutcome),
}

/// The mathematical value of a [`Phase`].
pub enum PhaseView {
    CheckingFinal,
    Remuxing,
    Streaming,
    Publishing,
    CheckingTemp(ErrorView),
    Removing(ErrorView),
    Done(OutcomeView),
}

impl View for Phase {
    type V = PhaseView;

    open spec fn view(&self) -> PhaseView {
        match self {
            Phase::CheckingFinal => PhaseView::CheckingFinal,
            Phase::Remuxing => PhaseView::Remuxing,
            Phase::Streaming => PhaseView::Streaming,
            Phase::Publishing => PhaseView::Publishing,
            Phase::CheckingTemp(error) => PhaseView::CheckingTemp(error@),
            Phase::Removing(error) => PhaseView::Removing(error@),
            Phase::Done(outcome) => PhaseView::Done(outcome@),
        }
    }
}

/// What the caller reports after carrying out a [`DownloadAction`].
#[derive(Debug, PartialEq, Eq)]
pub enum DownloadEvent {
    /// The file asked about exists.
    Present,
    /// The file asked about does not exist.
    Absent,
    /// The operation asked for succeeded.
    Succeeded,
    /// The operation asked for failed.
    Failed(PipelineError),
}

/// The mathematical value of a [`DownloadEvent`].
pub enum EventView {
    Present,
    Absent,
    Succeeded,
    Failed(ErrorView),
}

impl View for DownloadEvent {
    type V = EventView;

    open spec fn view(&self) -> EventView {
        match self {
            DownloadEvent::Present => EventView::Present,
            DownloadEvent::Absent => EventView::Absent,
            DownloadEvent::Succeeded => EventView::Succeeded,
            DownloadEvent::Failed(error) => EventView::Failed(error@),
        }
    }
}

/// What the caller has to do next for a download.
#[derive(Debug, PartialEq, Eq)]
pub enum DownloadAction {
    /// Report whether a file exists at `path`.
    CheckExists { path: String },
    /// Run the transcoder with `arguments`.
    RunTranscoder { arguments: Vec<String> },
    /// Copy the bytes behind `url` into a new file at `path`.
    StreamCopy { url: String, path: String },
    /// Rename the file at `from` to `to`, atomically.
    Rename { from: String, to: String },
    /// Delete the file at `path`.
    Remove { path: String },
    /// Nothing is left to do: the download ended as given.
    Finish(DownloadOutcome),
}

/// The mathematical value of a [`DownloadAction`].
pub enum ActionView {
    CheckExists { path: Seq<char> },
    RunTranscoder { arguments: Seq<Seq<char>> },
    StreamCopy { url: Seq<char>, path: Seq<char> },
    Rename { from: Seq<char>, to: Seq<char> },
    Remove { path: Seq<char> },
    Finish(OutcomeView),
}

impl View for DownloadAction {
    type V = ActionView;

    open spec fn view(&self) -> ActionView {
        match self {
            DownloadAction::CheckExists { path } => ActionView::CheckExists { path: path@ },
            DownloadAction::RunTranscoder { arguments } => ActionView::RunTranscoder {
                arguments: views(arguments@),
            },
            DownloadAction::StreamCopy { url, path } => ActionView::StreamCopy {
                url: url@,
                path: path@,
            },
            DownloadAction::Rename { from, to } => ActionView::Rename { from: from@, to: to@ },
            DownloadAction::Remove { path } => ActionView::Remove { path: path@ },
            DownloadAction::Finish(outcome) => ActionView::Finish(outcome@),
        }
    }
}

/// One download in progress: what is downloaded, to where, and how far it got.
#[derive(Debug, PartialEq, Eq)]
pub struct Download {
    pub post_id: String,
    pub video_url: String,
    pub final_path: String,
    pub temp_path: String,
    pub phase: Phase,
}

/// The mathematical value of a [`Download`].
pub struct DownloadView {
    pub post_id: Seq<char>,
    pub video_url: Seq<char>,
    pub final_path: Seq<char>,
    pub temp_path: Seq<char>,
    pub phase: PhaseView,
}

impl View for Download {
    type V = DownloadView;

    open spec fn view(&self) -> DownloadView {
        DownloadView {
            post_id: self.post_id@,
            video_url: self.video_url@,
            final_path: self.final_path@,
            temp_path: self.temp_path@,
            phase: self.phase@,
        }
    }
}

/// The phase that follows `download.phase` once the caller reports `event`.
///
/// An existing final file ends the download as skipped before anything is
/// transferred. Otherwise the asset is staged by its transport, then
/// published by a rename. A failure of either is kept while the staging file
/// is looked for and deleted, and is the outcome whatever the deletion did.
/// A report that answers no pending request changes nothing.
pub open spec fn next_phase(download: DownloadView, event: EventView) -> PhaseView {
    match (download.phase, event) {
        (PhaseView::CheckingFinal, EventView::Present) => PhaseView::Done(OutcomeView::Skipped),
        (PhaseView::CheckingFinal, EventView::Absent) => match transport_of(download.video_url) {
            Transport::Remux => PhaseView::Remuxing,
            Transport::Stream => PhaseView::Streaming,
            Transport::Unsupported => PhaseView::Done(OutcomeView::Skipped),
        },
        (PhaseView::Remuxing, EventView::Succeeded) => PhaseView::Publishing,
        (PhaseView::Streaming, EventView::Succeeded) => PhaseView::Publishing,
        (PhaseView::Publishing, EventView::Succeeded) => PhaseView::Done(OutcomeView::Success),
        (PhaseView::Remuxing, EventView::Failed(error)) => PhaseView::CheckingTemp(error),
        (PhaseView::Streaming, EventView::Failed(error)) => PhaseView::CheckingTemp(error),
        (PhaseView::Publishing, EventView::Failed(error)) => PhaseView::CheckingTemp(error),
        (PhaseView::CheckingTemp(error), EventView::Present) => PhaseView::Removing(error),
        (PhaseView::CheckingTemp(error), EventView::Absent) => PhaseView::Done(
            OutcomeView::Failure(error),
        ),
        (PhaseView::Removing(error), EventView::Succeeded) => PhaseView::Done(
            OutcomeView::Failure(error),
        ),
        (PhaseView::Removing(error), EventView::Failed(_)) => PhaseView::Done(
            OutcomeView::Failure(error),
        ),
        (phase, _) => phase,
    }
}

/// The download after the caller reports `event`.
pub open spec fn step_spec(download: DownloadView, event: EventView) -> DownloadView {
    DownloadView { phase: next_phase(download, event), ..download }
}

/// What a download in this state asks of the caller.
pub open spec fn action_spec(download: DownloadView) -> ActionView {
    match download.phase {
        PhaseView::CheckingFinal => ActionView::CheckExists { path: download.final_path },
        PhaseView::Remuxing => ActionView::RunTranscoder {
            arguments: remux_arguments_spec(download.video_url, download.temp_path),
        },
        PhaseView::Streaming => ActionView::StreamCopy {
            url: download.video_url,
            path: download.temp_path,
        },
        PhaseView::Publishing => ActionView::Rename {
            from: download.temp_path,
            to: download.final_path,
        },
        PhaseView::CheckingTemp(_) => ActionView::CheckExists { path: download.temp_path },
        PhaseView::Removing(_) => ActionView::Remove { path: download.temp_path },
        PhaseView::Done(outcome) => ActionView::Finish(outcome),
    }
}

/// The path under which the video of the post `post_id` is published in the
/// directory `output`: the post's name with the extension `mp4` added.
pub open spec fn final_path_of(output: Seq<char>, post_id: Seq<char>) -> Seq<char> {
    path_with_added_extension(joined_path(output, post_id), "mp4"@)
}

/// The path at which a download is staged before it is published at
/// `final_path`: that path with the extension `tmp` added.
pub open spec fn temp_path_of(final_path: Seq<char>) -> Seq<char> {
    path_with_added_extension(final_path, "tmp"@)
}

/// Begins the download of `video_url` for the post `post_id` into the
/// directory `output`. Nothing has happened yet: the download first asks
/// whether its final file exists.
pub fn download(post_id: &str, video_url: &str, output: &str) -> (res: Download)
    ensures
        res@ == (DownloadView {
            post_id: post_id@,
            video_url: video_url@,
            final_path: final_path_of(output@, post_id@),
            temp_path: temp_path_of(final_path_of(output@, post_id@)),
            phase: PhaseView::CheckingFinal,
        }),
{
    proof {
        reveal_strlit("mp4");
        reveal_strlit("tmp");
    }
    let joined = join_path(output, post_id);
    let final_path = add_extension(joined.as_str(), "mp4");
    let temp_path = add_extension(final_path.as_str(), "tmp");
    Download::new(String::from_str(post_id), String::from_str(video_url), final_path, temp_path)
}

/// The single argument with which the transcoder only reports its version.
pub fn probe_arguments() -> (res: Vec<String>)
    ensures
        views(res@) == seq!["-version"@],
{
    let mut arguments: Vec<String> = Vec::new();
    arguments.push(String::from_str("-version"));
    arguments
}

/// The verdict on a probe of the transcoder: `probe` is `None` where the
/// program could not be run at all, and else whether it exited with status
/// zero.
pub open spec fn probe_verdict(probe: Option<bool>) -> Result<(), ErrorView> {
    match probe {
        Some(true) => Ok(()),
        Some(false) => Err(
            ErrorView {
                kind: ErrorKind::Subprocess,
                message: "ffmpeg command failed. Make sure ffmpeg is properly installed."@,
            },
        ),
        None => Err(
            ErrorView {
                kind: ErrorKind::Subprocess,
                message: "Failed to execute ffmpeg. Make sure ffmpeg is installed and available in PATH."@,
            },
        ),
    }
}

/// Judges a probe of the transcoder, run with [`probe_arguments`].
pub fn check_ffmpeg_available(probe: Option<bool>) -> (res: Result<(), PipelineError>)
    ensures
        result_view(res) == probe_verdict(probe),
{
    match probe {
        Some(true) => Ok(()),
        Some(false) => Err(
            PipelineError::new(
                ErrorKind::Subprocess,
                "ffmpeg command failed. Make sure ffmpeg is properly installed.",
            ),
        ),
        None => Err(
            PipelineError::new(
                ErrorKind::Subprocess,
                "Failed to execute ffmpeg. Make sure ffmpeg is installed and available in PATH.",
            ),
        ),
    }
}

/// The verdict on a finished transcoder run: exit status zero is success,
/// any other a subprocess failure that carries `diagnostic`.
pub open spec fn transcoder_verdict(exit_ok: bool, diagnostic: Seq<char>) -> Result<(), ErrorView> {
    if exit_ok {
        Ok(())
    } else {
        Err(ErrorView { kind: ErrorKind::Subprocess, message: diagnostic })
    }
}

/// Judges a finished transcoder run by its exit status and its diagnostic.
pub fn transcoder_outcome(exit_ok: bool, diagnostic: String) -> (res: Result<(), PipelineError>)
    ensures
        result_view(res) == transcoder_verdict(exit_ok, diagnostic@),
{
    if exit_ok {
        Ok(())
    } else {
        Err(PipelineError { kind: ErrorKind::Subprocess, message: diagnostic })
    }
}

/// Judges a finished transcoder run by its exit status and its error
/// stream, whose text, decoded leniently, is the diagnostic.
pub fn remux_outcome(exit_ok: bool, stderr: &[u8]) -> (res: Result<(), PipelineError>)
    ensures
        result_view(res) == transcoder_verdict(exit_ok, utf8_lossy(stderr@)),
{
    if exit_ok {
        Ok(())
    } else {
        transcoder_outcome(false, decode_lossy(stderr))
    }
}

/// The description of a failed download: the post, the asset, then the
/// failure.
pub open spec fn download_failure_text(
    post_id: Seq<char>,
    video_url: Seq<char>,
    error: ErrorView,
) -> Seq<char> {
    "Failed to download post "@ + post_id + " from "@ + video_url + ". "@ + description(error)
}

/// Describes the failure of the download of `video_url` for `post_id`.
pub fn describe_failure(post_id: &str, video_url: &str, error: &PipelineError) -> (res: String)
    ensures
        res@ == download_failure_text(post_id@, video_url@, error@),
{
    let cause = error.describe();
    String::from_str("Failed to download post ").concat(post_id).concat(" from ").concat(
        video_url,
    ).concat(". ").concat(cause.as_str())
}

impl Download {
    /// A download of `video_url` for the post `post_id` that has not begun:
    /// it is staged at `temp_path` and published at `final_path`.
    pub fn new(post_id: String, video_url: String, final_path: String, temp_path: String) -> (res:
        Download)
        ensures
            res@ == (DownloadView {
                post_id: post_id@,
                video_url: video_url@,
                final_path: final_path@,
                temp_path: temp_path@,
                phase: PhaseView::CheckingFinal,
            }),
    {
        Download { post_id, video_url, final_path, temp_path, phase: Phase::CheckingFinal }
    }

    /// What the caller has to do next.
    pub fn action(&self) -> (res: DownloadAction)
        ensures
            res@ == action_spec(self@),
    {
        match &self.phase {
            Phase::CheckingFinal => DownloadAction::CheckExists { path: self.final_path.clone() },
            Phase::Remuxing => DownloadAction::RunTranscoder {
                arguments: remux_arguments(self.video_url.as_str(), self.temp_path.as_str()),
            },
            Phase::Streaming => DownloadAction::StreamCopy {
                url: self.video_url.clone(),
                path: self.temp_path.clone(),
            },
            Phase::Publishing => DownloadAction::Rename {
                from: self.temp_path.clone(),
                to: self.final_path.clone(),
            },
            Phase::CheckingTemp(_) => DownloadAction::CheckExists { path: self.temp_path.clone() },
            Phase::Removing(_) => DownloadAction::Remove { path: self.temp_path.clone() },
            Phase::Done(outcome) => DownloadAction::Finish(outcome.clone()),
        }
    }

    /// Takes the caller's report on the action last asked for.
    pub fn step(self, event: DownloadEvent) -> (res: Download)
        ensures
            res@ == step_spec(self@, event@),
    {
        let Download { post_id, video_url, final_path, temp_path, phase } = self;
        let next = match (phase, event) {
            (Phase::CheckingFinal, DownloadEvent::Present) => Phase::Done(DownloadOutcome::Skipped),
            (Phase::CheckingFinal, DownloadEvent::Absent) => match select_transport(
                video_url.as_str(),
            ) {
                Transport::Remux => Phase::Remuxing,
                Transport::Stream => Phase::Streaming,
                Transport::Unsupported => Phase::Done(DownloadOutcome::Skipped),
            },
            (Phase::Remuxing, DownloadEvent::Succeeded) => Phase::Publishing,
            (Phase::Streaming, DownloadEvent::Succeeded) => Phase::Publishing,
            (Phase::Publishing, DownloadEvent::Succeeded) => Phase::Done(DownloadOutcome::Success),
            (Phase::Remuxing, DownloadEvent::Failed(error)) => Phase::CheckingTemp(error),
            (Phase::Streaming, DownloadEvent::Failed(error)) => Phase::CheckingTemp(error),
            (Phase::Publishing, DownloadEvent::Failed(error)) => Phase::CheckingTemp(error),
            (Phase::CheckingTemp(error), DownloadEvent::Present) => Phase::Removing(error),
            (Phase::CheckingTemp(error), DownloadEvent::Absent) => Phase::Done(
                DownloadOutcome::Failure(error),
            ),
            (Phase::Removing(error), DownloadEvent::Succeeded) => Phase::Done(
                DownloadOutcome::Failure(error),
            ),
            (Phase::Removing(error), DownloadEvent::Failed(_)) => Phase::Done(
                DownloadOutcome::Failure(error),
            ),
            (phase, _) => phase,
        };
        Download { post_id, video_url, final_path, temp_path, phase: next }
    }

    /// How the download ended, once it has.
    pub fn outcome(&self) -> (res: Option<DownloadOutcome>)
        ensures
            match self@.phase {
                PhaseView::Done(outcome) => res matches Some(o) && o@ == outcome,
                _ => res is None,
            },
    {
        match &self.phase {
            Phase::Done(outcome) => Some(outcome.clone()),
            _ => None,
        }
    }
}

} // verus!
