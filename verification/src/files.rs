//! What the order of a download's file operations guarantees, stated over a
//! model of its two files.
//!
//! The model knows one download alone. It holds of a download whose final
//! path and staging path differ, and every law here asks for that: where a
//! post's name leaves the two paths the same, staging would write under the
//! final name, and nothing below is claimed.

use crate::downloader::{
    action_spec, step_spec, ActionView, DownloadView, EventView, OutcomeView, PhaseView,
};
use vstd::prelude::*;

verus! {

/// What a path holds.
pub enum FileState {
    /// No file.
    Missing,
    /// A file that is still being written, or was left half written.
    Partial,
    /// A file that holds the whole asset.
    Complete,
}

/// The two files of one download.
pub struct Files {
    /// What is at the final path.
    pub final_file: FileState,
    /// What is at the staging path.
    pub temp_file: FileState,
    /// Whether a deletion of the staging file was tried and failed.
    pub removal_failed: bool,
}

/// Whether the caller, carrying out what `download` asks for, may report
/// `event` and leave the files as `after` where they were `before`.
///
/// Looking for a file reports what is there and changes nothing. Staging
/// writes the staging file only, and leaves it complete where it succeeds.
/// A rename that succeeds moves the staging file to the final path in one
/// step; one that fails changes nothing. A deletion that succeeds leaves no
/// staging file.
pub open spec fn allowed(download: DownloadView, event: EventView, before: Files, after: Files) -> bool {
    match download.phase {
        PhaseView::CheckingFinal => after == before && match event {
            EventView::Present => before.final_file != FileState::Missing,
            EventView::Absent => before.final_file == FileState::Missing,
            _ => false,
        },
        PhaseView::Remuxing | PhaseView::Streaming => after.final_file == before.final_file
            && after.removal_failed == before.removal_failed && match event {
            EventView::Succeeded => after.temp_file == FileState::Complete,
            EventView::Failed(_) => true,
            _ => false,
        },
        PhaseView::Publishing => match event {
            EventView::Succeeded => after == (Files {
                final_file: before.temp_file,
                temp_file: FileState::Missing,
                removal_failed: before.removal_failed,
            }),
            EventView::Failed(_) => after == before,
            _ => false,
        },
        PhaseView::CheckingTemp(_) => after == before && match event {
            EventView::Present => before.temp_file != FileState::Missing,
            EventView::Absent => before.temp_file == FileState::Missing,
            _ => false,
        },
        PhaseView::Removing(_) => match event {
            EventView::Succeeded => after == (Files { temp_file: FileState::Missing, ..before }),
            EventView::Failed(_) => after == (Files { removal_failed: true, ..before }),
            _ => false,
        },
        PhaseView::Done(_) => after == before,
    }
}

/// What holds of the files in each phase of a download.
///
/// The final path never holds a half-written file. From the moment staging
/// begins until the rename has succeeded it holds nothing. After a success
/// it holds the whole asset and no staging file is left. After a failure
/// it holds nothing, and no staging file is left unless its deletion failed.
pub open spec fn consistent(download: DownloadView, files: Files) -> bool {
    match download.phase {
        PhaseView::CheckingFinal => files.final_file != FileState::Partial && !files.removal_failed,
        PhaseView::Remuxing | PhaseView::Streaming => files.final_file == FileState::Missing
            && !files.removal_failed,
        PhaseView::Publishing => files.final_file == FileState::Missing && files.temp_file
            == FileState::Complete && !files.removal_failed,
        PhaseView::CheckingTemp(_) | PhaseView::Removing(_) => files.final_file
            == FileState::Missing && !files.removal_failed,
        PhaseView::Done(OutcomeView::Success) => files.final_file == FileState::Complete
            && files.temp_file == FileState::Missing,
        PhaseView::Done(OutcomeView::Skipped) => files.final_file != FileState::Partial,
        PhaseView::Done(OutcomeView::Failure(_)) => files.final_file == FileState::Missing && (
        files.temp_file == FileState::Missing || files.removal_failed),
    }
}

/// The download after the caller's reports `events`, taken in order.
pub open spec fn download_run(download: DownloadView, events: Seq<EventView>) -> DownloadView
    decreases events.len(),
{
    if events.len() == 0 {
        download
    } else {
        step_spec(download_run(download, events.drop_last()), events.last())
    }
}

/// Whether `files` is a course that the files may take while the caller
/// reports `events` to `download`, each report answering what the download
/// asked for at that point.
pub open spec fn follows(download: DownloadView, events: Seq<EventView>, files: Seq<Files>) -> bool {
    &&& files.len() == events.len() + 1
    &&& forall|i: int|
        0 <= i < events.len() ==> allowed(
            download_run(download, events.take(i)),
            #[trigger] events[i],
            files[i],
            files[i + 1],
        )
}

/// Whether an action transfers anything: over the network or by the
/// transcoder.
pub open spec fn is_transfer_work(action: ActionView) -> bool {
    action is RunTranscoder || action is StreamCopy
}

/// One report keeps the files consistent with the download.
pub proof fn lemma_step_keeps_consistent(
    download: DownloadView,
    event: EventView,
    before: Files,
    after: Files,
)
    requires
        download.final_path != download.temp_path,
        consistent(download, before),
        allowed(download, event, before, after),
    ensures
        consistent(step_spec(download, event), after),
        step_spec(download, event).final_path == download.final_path,
        step_spec(download, event).temp_path == download.temp_path,
{
}

/// The course of a download, one report at a time: the download after
/// the first `i + 1` reports is the one after the first `i`, taken one step
/// on by the report at `i`.
pub proof fn lemma_run_next(download: DownloadView, events: Seq<EventView>, i: int)
    requires
        0 <= i < events.len(),
    ensures
        download_run(download, events.take(i + 1)) == step_spec(
            download_run(download, events.take(i)),
            events[i],
        ),
        download_run(download, events.take(0)) == download,
        download_run(download, events.take(events.len() as int)) == download_run(download, events),
{
    assert(events.take(i + 1).drop_last() =~= events.take(i));
    assert(events.take(events.len() as int) =~= events);
}

/// The files are consistent with the download after its first `i` reports.
proof fn lemma_consistent_at(
    download: DownloadView,
    events: Seq<EventView>,
    files: Seq<Files>,
    i: int,
)
    requires
        download.phase == PhaseView::CheckingFinal,
        download.final_path != download.temp_path,
        follows(download, events, files),
        files[0].final_file != FileState::Partial,
        !files[0].removal_failed,
        0 <= i <= events.len(),
    ensures
        consistent(download_run(download, events.take(i)), files[i]),
        download_run(download, events.take(i)).final_path == download.final_path,
        download_run(download, events.take(i)).temp_path == download.temp_path,
    decreases i,
{
    if i > 0 {
        lemma_consistent_at(download, events, files, i - 1);
        lemma_run_next(download, events, i - 1);
        assert(allowed(
            download_run(download, events.take(i - 1)),
            events[i - 1],
            files[i - 1],
            files[i - 1 + 1],
        ));
        lemma_step_keeps_consistent(
            download_run(download, events.take(i - 1)),
            events[i - 1],
            files[i - 1],
            files[i],
        );
    }
}

/// Whatever the caller reports to a download whose two paths differ, the
/// files stay consistent with the download at every point of its course.
/// So nobody who looks at the final path ever finds a half-written file
/// there, and a download that has failed has left nothing at the final
/// path and, unless the deletion itself failed, nothing at the staging
/// path.
pub proof fn lemma_files_stay_consistent(
    download: DownloadView,
    events: Seq<EventView>,
    files: Seq<Files>,
)
    requires
        download.phase == PhaseView::CheckingFinal,
        download.final_path != download.temp_path,
        follows(download, events, files),
        files[0].final_file != FileState::Partial,
        !files[0].removal_failed,
    ensures
        forall|i: int|
            0 <= i <= events.len() ==> consistent(
                download_run(download, events.take(i)),
                #[trigger] files[i],
            ),
        forall|i: int| 0 <= i <= events.len() ==> (#[trigger] files[i]).final_file != FileState::Partial,
        download_run(download, events).phase is Done && download_run(download, events).phase->Done_0
            is Failure ==> files.last().final_file == FileState::Missing && (files.last().temp_file
            == FileState::Missing || files.last().removal_failed),
{
    assert forall|i: int| 0 <= i <= events.len() implies consistent(
        download_run(download, events.take(i)),
        #[trigger] files[i],
    ) && files[i].final_file != FileState::Partial by {
        lemma_consistent_at(download, events, files, i);
    }
}

/// After the report that the final file is there, the download is skipped
/// and stays so.
proof fn lemma_skipped_at(download: DownloadView, events: Seq<EventView>, k: int)
    requires
        download.phase == PhaseView::CheckingFinal,
        events.len() > 0,
        events[0] == EventView::Present,
        1 <= k <= events.len(),
    ensures
        download_run(download, events.take(k)).phase == PhaseView::Done(OutcomeView::Skipped),
    decreases k,
{
    lemma_run_next(download, events, k - 1);
    if k > 1 {
        lemma_skipped_at(download, events, k - 1);
    }
}

/// A download whose final file is already there is skipped at once: it
/// ends as skipped whatever is reported afterwards, and at no point asks
/// for a transfer.
pub proof fn lemma_existing_file_is_skipped(download: DownloadView, events: Seq<EventView>)
    requires
        download.phase == PhaseView::CheckingFinal,
        events.len() > 0,
        events[0] == EventView::Present,
    ensures
        download_run(download, events).phase == PhaseView::Done(OutcomeView::Skipped),
        forall|k: int|
            0 <= k <= events.len() ==> !is_transfer_work(
                action_spec(#[trigger] download_run(download, events.take(k))),
            ),
{
    assert forall|k: int| 0 <= k <= events.len() implies !is_transfer_work(
        action_spec(#[trigger] download_run(download, events.take(k))),
    ) by {
        if k > 0 {
            lemma_skipped_at(download, events, k);
        }
    }
    lemma_skipped_at(download, events, events.len() as int);
    assert(events.take(events.len() as int) =~= events);
}

} // verus!
