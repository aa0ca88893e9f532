use myfans_dl::downloader::{
    check_ffmpeg_available, describe_failure, download, probe_arguments, remux_arguments,
    remux_outcome, select_transport, transcoder_outcome, Download, DownloadAction, DownloadEvent,
    DownloadOutcome, Phase, Transport, TRANSCODER,
};
use myfans_dl::error::{ErrorKind, PipelineError};

fn text(value: &str) -> String {
    value.to_string()
}

fn failure(kind: ErrorKind, message: &str) -> PipelineError {
    PipelineError { kind, message: text(message) }
}

fn is_transfer(action: &DownloadAction) -> bool {
    matches!(action, DownloadAction::RunTranscoder { .. } | DownloadAction::StreamCopy { .. })
}

#[test]
fn transport_follows_the_suffix() {
    assert_eq!(select_transport("https://cdn.example/v/1080.m3u8"), Transport::Remux);
    assert_eq!(select_transport("https://cdn.example/v/720.mp4"), Transport::Stream);
    assert_eq!(select_transport("https://cdn.example/v/720.webm"), Transport::Unsupported);
    assert_eq!(select_transport(""), Transport::Unsupported);
    assert_eq!(select_transport(".mp4"), Transport::Stream);
    assert_eq!(select_transport(".m3u8"), Transport::Remux);
    assert_eq!(select_transport("mp4"), Transport::Unsupported);
    assert_eq!(select_transport("https://cdn.example/v.mp4?token=1"), Transport::Unsupported);
    assert_eq!(select_transport("https://cdn.example/v.MP4"), Transport::Unsupported);
    assert_eq!(select_transport("https://cdn.example/v.mp4.m3u8"), Transport::Remux);
    assert_eq!(select_transport("https://cdn.example/v.m3u8.mp4"), Transport::Stream);
}

#[test]
fn download_begins_with_its_two_paths() {
    let begun = download("p1", "https://cdn/p1.mp4", "out");
    assert_eq!(
        begun,
        Download {
            post_id: text("p1"),
            video_url: text("https://cdn/p1.mp4"),
            final_path: text("out/p1.mp4"),
            temp_path: text("out/p1.mp4.tmp"),
            phase: Phase::CheckingFinal,
        }
    );
    assert_eq!(begun.outcome(), None);
}

#[test]
fn download_adds_the_extension_to_the_whole_identifier() {
    let begun = download("clip.v2", "https://cdn/x.mp4", "/srv/videos");
    assert_eq!(begun.final_path, "/srv/videos/clip.v2.mp4");
    assert_eq!(begun.temp_path, "/srv/videos/clip.v2.mp4.tmp");
}

#[test]
fn download_of_a_name_without_a_file_name_has_one_path_for_both() {
    let begun = download("..", "https://cdn/x.mp4", "out");
    assert_eq!(begun.final_path, "out/..");
    assert_eq!(begun.temp_path, "out/..");
}

#[test]
fn download_with_given_paths_keeps_them() {
    let begun = Download::new(text("p"), text("u"), text("a/b.mp4"), text("a/b.mp4.tmp"));
    assert_eq!(begun.action(), DownloadAction::CheckExists { path: text("a/b.mp4") });
    assert_eq!(begun.phase, Phase::CheckingFinal);
}

#[test]
fn existing_final_file_is_skipped_without_any_transfer() {
    let begun = download("p1", "https://cdn/p1.mp4", "out");
    assert_eq!(begun.action(), DownloadAction::CheckExists { path: text("out/p1.mp4") });
    let ended = begun.step(DownloadEvent::Present);
    assert_eq!(ended.action(), DownloadAction::Finish(DownloadOutcome::Skipped));
    assert_eq!(ended.outcome(), Some(DownloadOutcome::Skipped));
    let still = ended.step(DownloadEvent::Succeeded).step(DownloadEvent::Absent);
    assert_eq!(still.outcome(), Some(DownloadOutcome::Skipped));
    assert!(!is_transfer(&still.action()));
}

#[test]
fn skipping_is_the_same_for_every_transport() {
    for url in ["https://cdn/a.m3u8", "https://cdn/a.mp4", "https://cdn/a.txt"] {
        let ended = download("p", url, "out").step(DownloadEvent::Present);
        assert_eq!(ended.outcome(), Some(DownloadOutcome::Skipped));
    }
}

#[test]
fn unsupported_asset_is_skipped_without_any_transfer() {
    let begun = download("p1", "https://cdn/p1.webm", "out");
    let ended = begun.step(DownloadEvent::Absent);
    assert_eq!(ended.action(), DownloadAction::Finish(DownloadOutcome::Skipped));
}

#[test]
fn container_file_is_streamed_to_the_staging_path_then_renamed() {
    let mut download = download("p1", "https://cdn/p1.mp4", "out");
    download = download.step(DownloadEvent::Absent);
    assert_eq!(download.phase, Phase::Streaming);
    assert_eq!(
        download.action(),
        DownloadAction::StreamCopy { url: text("https://cdn/p1.mp4"), path: text("out/p1.mp4.tmp") }
    );
    download = download.step(DownloadEvent::Succeeded);
    assert_eq!(
        download.action(),
        DownloadAction::Rename { from: text("out/p1.mp4.tmp"), to: text("out/p1.mp4") }
    );
    download = download.step(DownloadEvent::Succeeded);
    assert_eq!(download.action(), DownloadAction::Finish(DownloadOutcome::Success));
    assert_eq!(download.outcome(), Some(DownloadOutcome::Success));
}

#[test]
fn playlist_is_remuxed_to_the_staging_path_then_renamed() {
    let mut download = download("p3", "https://cdn/p3.m3u8", "out");
    download = download.step(DownloadEvent::Absent);
    assert_eq!(download.phase, Phase::Remuxing);
    assert_eq!(
        download.action(),
        DownloadAction::RunTranscoder {
            arguments: vec![
                text("-i"),
                text("https://cdn/p3.m3u8"),
                text("-c"),
                text("copy"),
                text("-bsf:a"),
                text("aac_adtstoasc"),
                text("-f"),
                text("mp4"),
                text("out/p3.mp4.tmp"),
            ],
        }
    );
    download = download.step(DownloadEvent::Succeeded);
    assert_eq!(
        download.action(),
        DownloadAction::Rename { from: text("out/p3.mp4.tmp"), to: text("out/p3.mp4") }
    );
    download = download.step(DownloadEvent::Succeeded);
    assert_eq!(download.outcome(), Some(DownloadOutcome::Success));
}

#[test]
fn failed_transfer_deletes_the_staging_file_and_keeps_its_failure() {
    let broken = failure(ErrorKind::Transfer, "connection reset");
    let mut download = download("p1", "https://cdn/p1.mp4", "out");
    download = download.step(DownloadEvent::Absent);
    download = download.step(DownloadEvent::Failed(broken.clone()));
    assert_eq!(download.phase, Phase::CheckingTemp(broken.clone()));
    assert_eq!(download.action(), DownloadAction::CheckExists { path: text("out/p1.mp4.tmp") });
    assert_eq!(download.outcome(), None);
    download = download.step(DownloadEvent::Present);
    assert_eq!(download.action(), DownloadAction::Remove { path: text("out/p1.mp4.tmp") });
    download = download.step(DownloadEvent::Succeeded);
    assert_eq!(download.action(), DownloadAction::Finish(DownloadOutcome::Failure(broken.clone())));
    assert_eq!(download.outcome(), Some(DownloadOutcome::Failure(broken)));
}

#[test]
fn failed_transfer_without_a_staging_file_deletes_nothing() {
    let broken = failure(ErrorKind::Subprocess, "exit 1");
    let mut download = download("p3", "https://cdn/p3.m3u8", "out");
    download = download.step(DownloadEvent::Absent);
    download = download.step(DownloadEvent::Failed(broken.clone()));
    download = download.step(DownloadEvent::Absent);
    assert_eq!(download.outcome(), Some(DownloadOutcome::Failure(broken)));
}

#[test]
fn failed_deletion_does_not_mask_the_failure_of_the_transfer() {
    let broken = failure(ErrorKind::Transfer, "connection reset");
    let denied = failure(ErrorKind::Filesystem, "permission denied");
    let mut download = download("p1", "https://cdn/p1.mp4", "out");
    download = download.step(DownloadEvent::Absent);
    download = download.step(DownloadEvent::Failed(broken.clone()));
    download = download.step(DownloadEvent::Present);
    download = download.step(DownloadEvent::Failed(denied));
    assert_eq!(download.outcome(), Some(DownloadOutcome::Failure(broken)));
}

#[test]
fn failed_rename_deletes_the_staging_file() {
    let denied = failure(ErrorKind::Filesystem, "cross-device link");
    let mut download = download("p1", "https://cdn/p1.mp4", "out");
    download = download.step(DownloadEvent::Absent);
    download = download.step(DownloadEvent::Succeeded);
    download = download.step(DownloadEvent::Failed(denied.clone()));
    assert_eq!(download.action(), DownloadAction::CheckExists { path: text("out/p1.mp4.tmp") });
    download = download.step(DownloadEvent::Present);
    assert_eq!(download.action(), DownloadAction::Remove { path: text("out/p1.mp4.tmp") });
    download = download.step(DownloadEvent::Succeeded);
    assert_eq!(download.outcome(), Some(DownloadOutcome::Failure(denied)));
}

#[test]
fn nothing_is_written_under_the_final_name_before_the_rename() {
    for url in ["https://cdn/a.m3u8", "https://cdn/a.mp4"] {
        let mut download = download("a", url, "out");
        let mut renames = 0;
        let events = [DownloadEvent::Absent, DownloadEvent::Succeeded, DownloadEvent::Succeeded];
        for event in events {
            match download.action() {
                DownloadAction::StreamCopy { path, .. } => assert_eq!(path, "out/a.mp4.tmp"),
                DownloadAction::RunTranscoder { arguments } => {
                    assert_eq!(arguments.last().unwrap(), "out/a.mp4.tmp");
                    assert!(!arguments.contains(&text("out/a.mp4")));
                }
                DownloadAction::Rename { from, to } => {
                    renames += 1;
                    assert_eq!(from, "out/a.mp4.tmp");
                    assert_eq!(to, "out/a.mp4");
                }
                DownloadAction::CheckExists { path } => assert_eq!(path, "out/a.mp4"),
                other => panic!("unexpected action {:?}", other),
            }
            download = download.step(event);
        }
        assert_eq!(renames, 1);
        assert_eq!(download.outcome(), Some(DownloadOutcome::Success));
    }
}

#[test]
fn report_that_answers_nothing_changes_nothing() {
    let begun = download("p1", "https://cdn/p1.mp4", "out");
    let same = begun.step(DownloadEvent::Succeeded);
    assert_eq!(same.phase, Phase::CheckingFinal);
    let same = same.step(DownloadEvent::Failed(failure(ErrorKind::Transfer, "x")));
    assert_eq!(same.phase, Phase::CheckingFinal);
    let streaming = same.step(DownloadEvent::Absent);
    let same = streaming.step(DownloadEvent::Present);
    assert_eq!(same.phase, Phase::Streaming);
    let same = same.step(DownloadEvent::Absent);
    assert_eq!(same.phase, Phase::Streaming);
    let publishing = same.step(DownloadEvent::Succeeded);
    let same = publishing.step(DownloadEvent::Present);
    assert_eq!(same.phase, Phase::Publishing);
}

#[test]
fn transcoder_is_ffmpeg() {
    assert_eq!(TRANSCODER, "ffmpeg");
    assert_eq!(probe_arguments(), vec![text("-version")]);
}

#[test]
fn remux_arguments_copy_both_streams_into_an_mp4() {
    assert_eq!(
        remux_arguments("https://cdn/x.m3u8", "/tmp/x.mp4.tmp"),
        vec![
            "-i",
            "https://cdn/x.m3u8",
            "-c",
            "copy",
            "-bsf:a",
            "aac_adtstoasc",
            "-f",
            "mp4",
            "/tmp/x.mp4.tmp"
        ]
    );
}

#[test]
fn probe_verdicts() {
    assert_eq!(check_ffmpeg_available(Some(true)), Ok(()));
    assert_eq!(
        check_ffmpeg_available(Some(false)),
        Err(failure(
            ErrorKind::Subprocess,
            "ffmpeg command failed. Make sure ffmpeg is properly installed."
        ))
    );
    assert_eq!(
        check_ffmpeg_available(None),
        Err(failure(
            ErrorKind::Subprocess,
            "Failed to execute ffmpeg. Make sure ffmpeg is installed and available in PATH."
        ))
    );
}

#[test]
fn transcoder_exit_decides_the_outcome() {
    assert_eq!(transcoder_outcome(true, text("warnings only")), Ok(()));
    assert_eq!(
        transcoder_outcome(false, text("no such stream")),
        Err(failure(ErrorKind::Subprocess, "no such stream"))
    );
    assert_eq!(transcoder_outcome(false, String::new()), Err(failure(ErrorKind::Subprocess, "")));
}

#[test]
fn remux_failure_carries_the_error_stream_as_text() {
    assert_eq!(remux_outcome(true, b"ignored"), Ok(()));
    assert_eq!(
        remux_outcome(false, b"Invalid data found"),
        Err(failure(ErrorKind::Subprocess, "Invalid data found"))
    );
    assert_eq!(
        remux_outcome(false, &[b'a', 0xff, b'b']),
        Err(failure(ErrorKind::Subprocess, "a\u{fffd}b"))
    );
    assert_eq!(
        remux_outcome(false, "caf\u{e9}".as_bytes()),
        Err(failure(ErrorKind::Subprocess, "caf\u{e9}"))
    );
}

#[test]
fn download_failure_is_described_with_post_and_asset() {
    assert_eq!(
        describe_failure("p1", "https://cdn/p1.mp4", &failure(ErrorKind::Transfer, "timed out")),
        "Failed to download post p1 from https://cdn/p1.mp4. transfer error: timed out"
    );
}
