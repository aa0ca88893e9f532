use myfans_dl::error::{ErrorKind, PipelineError};
use myfans_dl::transfer::{Transfer, TransferAction, TransferEvent, TransferPhase};

fn begun() -> Transfer {
    Transfer::new("https://cdn/p1.mp4".to_string(), "out/p1.mp4.tmp".to_string())
}

fn failure(kind: ErrorKind, message: &str) -> PipelineError {
    PipelineError { kind, message: message.to_string() }
}

fn receiving() -> Transfer {
    begun().step(TransferEvent::Responded(200)).step(TransferEvent::Completed)
}

#[test]
fn transfer_requests_before_it_creates_the_file() {
    let transfer = begun();
    assert_eq!(transfer.phase, TransferPhase::Requesting);
    assert_eq!(transfer.action(), TransferAction::SendRequest { url: "https://cdn/p1.mp4".to_string() });
    assert_eq!(transfer.result(), None);
    let transfer = transfer.step(TransferEvent::Responded(200));
    assert_eq!(transfer.action(), TransferAction::CreateFile { path: "out/p1.mp4.tmp".to_string() });
}

#[test]
fn transfer_writes_each_chunk_then_flushes() {
    let mut transfer = receiving();
    let mut written = 0;
    for _ in 0..3 {
        assert_eq!(transfer.action(), TransferAction::ReadChunk);
        transfer = transfer.step(TransferEvent::Chunk);
        assert_eq!(transfer.action(), TransferAction::WriteChunk);
        transfer = transfer.step(TransferEvent::Completed);
        written += 1;
    }
    assert_eq!(written, 3);
    assert_eq!(transfer.action(), TransferAction::ReadChunk);
    transfer = transfer.step(TransferEvent::EndOfBody);
    assert_eq!(transfer.action(), TransferAction::Flush);
    assert_eq!(transfer.result(), None);
    transfer = transfer.step(TransferEvent::Completed);
    assert_eq!(transfer.action(), TransferAction::Finish(Ok(())));
    assert_eq!(transfer.result(), Some(Ok(())));
}

#[test]
fn transfer_of_an_empty_body_succeeds() {
    let transfer = receiving().step(TransferEvent::EndOfBody).step(TransferEvent::Completed);
    assert_eq!(transfer.result(), Some(Ok(())));
}

#[test]
fn transfer_accepts_every_success_status() {
    for status in [200, 204, 206, 299] {
        let transfer = begun().step(TransferEvent::Responded(status));
        assert_eq!(transfer.phase, TransferPhase::Creating);
    }
}

#[test]
fn transfer_fails_on_any_other_status_before_a_file_is_made() {
    for status in [0, 100, 199, 300, 301, 404, 500, 599, u16::MAX] {
        let transfer = begun().step(TransferEvent::Responded(status));
        assert_eq!(
            transfer.result(),
            Some(Err(failure(
                ErrorKind::Transfer,
                "The server answered with a status other than success."
            )))
        );
        assert_eq!(transfer.action(), TransferAction::Finish(transfer.result().unwrap()));
    }
}

#[test]
fn transfer_failures_name_the_step_that_failed() {
    let cause = || TransferEvent::Failed("boom".to_string());
    assert_eq!(
        begun().step(cause()).result(),
        Some(Err(failure(ErrorKind::Transfer, "Failed to request.: boom")))
    );
    assert_eq!(
        begun().step(TransferEvent::Responded(200)).step(cause()).result(),
        Some(Err(failure(ErrorKind::Filesystem, "Failed to create output file.: boom")))
    );
    assert_eq!(
        receiving().step(cause()).result(),
        Some(Err(failure(ErrorKind::Transfer, "Failed to read stream.: boom")))
    );
    assert_eq!(
        receiving().step(TransferEvent::Chunk).step(cause()).result(),
        Some(Err(failure(ErrorKind::Transfer, "Failed to write to stream.: boom")))
    );
    assert_eq!(
        receiving().step(TransferEvent::EndOfBody).step(cause()).result(),
        Some(Err(failure(ErrorKind::Transfer, "Failed to flush writer stream.: boom")))
    );
}

#[test]
fn transfer_that_is_over_stays_as_it_is() {
    let done = receiving().step(TransferEvent::EndOfBody).step(TransferEvent::Completed);
    let done = done.step(TransferEvent::Failed("late".to_string())).step(TransferEvent::Chunk);
    assert_eq!(done.result(), Some(Ok(())));
    let failed = begun().step(TransferEvent::Failed("first".to_string()));
    let failed = failed.step(TransferEvent::Failed("second".to_string()));
    let failed = failed.step(TransferEvent::Responded(200));
    assert_eq!(
        failed.result(),
        Some(Err(failure(ErrorKind::Transfer, "Failed to request.: first")))
    );
}

#[test]
fn transfer_ignores_a_report_that_answers_nothing() {
    let transfer = begun().step(TransferEvent::Chunk).step(TransferEvent::Completed);
    assert_eq!(transfer.phase, TransferPhase::Requesting);
    let transfer = receiving().step(TransferEvent::Completed).step(TransferEvent::Responded(200));
    assert_eq!(transfer.phase, TransferPhase::Receiving);
    let transfer = receiving().step(TransferEvent::Chunk).step(TransferEvent::EndOfBody);
    assert_eq!(transfer.phase, TransferPhase::Writing);
}
