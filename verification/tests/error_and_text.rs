use myfans_dl::error::{ErrorKind, Operation, PipelineError};
use myfans_dl::text::decimal;

#[test]
fn decimal_writes_numbers_as_std_does() {
    assert_eq!(decimal(0), "0");
    assert_eq!(decimal(7), "7");
    assert_eq!(decimal(10), "10");
    assert_eq!(decimal(99), "99");
    assert_eq!(decimal(100), "100");
    assert_eq!(decimal(12345), "12345");
    assert_eq!(decimal(9_876_543_210), "9876543210");
    assert_eq!(decimal(usize::MAX), usize::MAX.to_string());
}

#[test]
fn decimal_agrees_with_std_on_a_range() {
    let mut number: usize = 0;
    while number < 3000 {
        assert_eq!(decimal(number), number.to_string());
        number += 1;
    }
}

#[test]
fn failure_is_described_by_class_and_diagnostic() {
    let describe = |kind: ErrorKind| PipelineError::new(kind, "why").describe();
    assert_eq!(describe(ErrorKind::Remote), "remote error: why");
    assert_eq!(describe(ErrorKind::Decode), "decode error: why");
    assert_eq!(describe(ErrorKind::Subprocess), "subprocess error: why");
    assert_eq!(describe(ErrorKind::Transfer), "transfer error: why");
    assert_eq!(describe(ErrorKind::Filesystem), "filesystem error: why");
}

#[test]
fn failure_keeps_its_class_and_diagnostic() {
    let error = PipelineError::new(ErrorKind::Transfer, "broken pipe");
    assert_eq!(error.kind, ErrorKind::Transfer);
    assert_eq!(error.message, "broken pipe");
    assert_eq!(error.clone(), error);
}

#[test]
fn failure_of_an_operation_has_its_class_and_names_it() {
    let of = |operation: Operation| {
        let error = PipelineError::of(operation, "why");
        (error.kind, error.message)
    };
    let expect = |kind: ErrorKind, message: &str| (kind, message.to_string());
    assert_eq!(
        of(Operation::SendRequest),
        expect(ErrorKind::Remote, "Failed to send GET request.: why")
    );
    assert_eq!(
        of(Operation::DecodeResponse),
        expect(ErrorKind::Decode, "Failed to deserialize response.: why")
    );
    assert_eq!(
        of(Operation::RunTranscoder),
        expect(ErrorKind::Subprocess, "Failed to run ffmpeg.: why")
    );
    assert_eq!(of(Operation::RequestAsset), expect(ErrorKind::Transfer, "Failed to request.: why"));
    assert_eq!(
        of(Operation::CreateFile),
        expect(ErrorKind::Filesystem, "Failed to create output file.: why")
    );
    assert_eq!(of(Operation::ReadBody), expect(ErrorKind::Transfer, "Failed to read stream.: why"));
    assert_eq!(
        of(Operation::WriteBody),
        expect(ErrorKind::Transfer, "Failed to write to stream.: why")
    );
    assert_eq!(
        of(Operation::FlushBody),
        expect(ErrorKind::Transfer, "Failed to flush writer stream.: why")
    );
    assert_eq!(
        of(Operation::RenameFile),
        expect(ErrorKind::Filesystem, "Failed to rename temporary file.: why")
    );
    assert_eq!(
        of(Operation::RemoveFile),
        expect(ErrorKind::Filesystem, "Failed to remove temporary file.: why")
    );
}

#[test]
fn failure_of_an_operation_keeps_an_empty_cause() {
    assert_eq!(PipelineError::of(Operation::ReadBody, "").message, "Failed to read stream.: ");
}
