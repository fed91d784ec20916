use hbone::classify::{
    classify_reset, h2_to_io_error, read_error_disposition, shutdown_reset_result,
    write_reset_error, LowerError, ReadDisposition, ResetClass, StreamErrorKind, CANCEL, NO_ERROR,
    STREAM_CLOSED,
};

#[test]
fn clean_reasons_classify_as_clean() {
    assert_eq!(classify_reset(Some(NO_ERROR)), ResetClass::Clean);
    assert_eq!(classify_reset(Some(CANCEL)), ResetClass::Clean);
}

#[test]
fn stream_closed_classifies_as_broken() {
    assert_eq!(classify_reset(Some(STREAM_CLOSED)), ResetClass::Broken);
}

#[test]
fn other_and_missing_reasons_classify_as_opaque() {
    assert_eq!(classify_reset(Some(2)), ResetClass::Opaque);
    assert_eq!(classify_reset(Some(11)), ResetClass::Opaque);
    assert_eq!(classify_reset(None), ResetClass::Opaque);
}

#[test]
fn io_errors_pass_through_unchanged() {
    assert_eq!(
        h2_to_io_error(&LowerError::Io(StreamErrorKind::BrokenPipe)),
        StreamErrorKind::BrokenPipe
    );
    assert_eq!(
        h2_to_io_error(&LowerError::Io(StreamErrorKind::Other)),
        StreamErrorKind::Other
    );
}

#[test]
fn proto_errors_wrap_as_opaque() {
    assert_eq!(
        h2_to_io_error(&LowerError::Proto(Some(7))),
        StreamErrorKind::Other
    );
    assert_eq!(h2_to_io_error(&LowerError::Proto(None)), StreamErrorKind::Other);
}

#[test]
fn clean_reset_reads_as_end_of_stream() {
    assert_eq!(
        read_error_disposition(&LowerError::Proto(Some(NO_ERROR))),
        ReadDisposition::EndOfStream
    );
    assert_eq!(
        read_error_disposition(&LowerError::Proto(Some(CANCEL))),
        ReadDisposition::EndOfStream
    );
}

#[test]
fn stream_closed_reads_as_broken_pipe() {
    assert_eq!(
        read_error_disposition(&LowerError::Proto(Some(STREAM_CLOSED))),
        ReadDisposition::Surface(StreamErrorKind::BrokenPipe)
    );
}

#[test]
fn opaque_reset_reads_as_other() {
    assert_eq!(
        read_error_disposition(&LowerError::Proto(Some(1))),
        ReadDisposition::Surface(StreamErrorKind::Other)
    );
    assert_eq!(
        read_error_disposition(&LowerError::Io(StreamErrorKind::BrokenPipe)),
        ReadDisposition::Surface(StreamErrorKind::BrokenPipe)
    );
}

#[test]
fn write_fallback_treats_accounted_resets_as_broken_pipe() {
    assert_eq!(write_reset_error(&Ok(NO_ERROR)), StreamErrorKind::BrokenPipe);
    assert_eq!(write_reset_error(&Ok(CANCEL)), StreamErrorKind::BrokenPipe);
    assert_eq!(write_reset_error(&Ok(STREAM_CLOSED)), StreamErrorKind::BrokenPipe);
    assert_eq!(write_reset_error(&Ok(9)), StreamErrorKind::Other);
    assert_eq!(
        write_reset_error(&Err(LowerError::Proto(None))),
        StreamErrorKind::Other
    );
}

#[test]
fn shutdown_fallback_treats_no_error_as_success() {
    assert_eq!(shutdown_reset_result(&Ok(NO_ERROR)), Ok(()));
    assert_eq!(
        shutdown_reset_result(&Ok(CANCEL)),
        Err(StreamErrorKind::BrokenPipe)
    );
    assert_eq!(
        shutdown_reset_result(&Ok(STREAM_CLOSED)),
        Err(StreamErrorKind::BrokenPipe)
    );
    assert_eq!(shutdown_reset_result(&Ok(13)), Err(StreamErrorKind::Other));
    assert_eq!(
        shutdown_reset_result(&Err(LowerError::Io(StreamErrorKind::Other))),
        Err(StreamErrorKind::Other)
    );
}
