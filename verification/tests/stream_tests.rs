use hbone::classify::{LowerError, StreamErrorKind, CANCEL, NO_ERROR, STREAM_CLOSED};
use hbone::fake::{CapacityEvent, FakeRecvStream, FakeSendStream, RecvEvent};
use hbone::stream::{H2Stream, H2StreamReadHalf, H2StreamWriteHalf, RWStream, TokioH2Stream};

fn read_half(events: Vec<RecvEvent>) -> H2StreamReadHalf {
    H2StreamReadHalf {
        recv_stream: FakeRecvStream::new(events),
    }
}

fn write_half(
    capacity: Vec<CapacityEvent>,
    send_error: Option<LowerError>,
    reset: Result<u32, LowerError>,
) -> H2StreamWriteHalf {
    H2StreamWriteHalf {
        send_stream: FakeSendStream::new(capacity, send_error, reset),
    }
}

fn quiet_write_half() -> H2StreamWriteHalf {
    write_half(Vec::new(), None, Ok(NO_ERROR))
}

#[test]
fn read_releases_credit_for_delivered_chunk() {
    let mut read = read_half(vec![RecvEvent::Data {
        chunk: vec![1, 2, 3],
        end_after: false,
    }]);
    let got = read.poll_bytes().unwrap();
    assert_eq!(got, vec![1, 2, 3]);
    assert_eq!(read.recv_stream.released, vec![3]);
}

#[test]
fn read_retries_past_spurious_empty_chunks() {
    let mut read = read_half(vec![
        RecvEvent::Data { chunk: vec![], end_after: false },
        RecvEvent::Data { chunk: vec![], end_after: false },
        RecvEvent::Data { chunk: vec![5], end_after: false },
    ]);
    let got = read.poll_bytes().unwrap();
    assert_eq!(got, vec![5]);
    assert_eq!(read.recv_stream.released, vec![1]);
}

#[test]
fn read_end_returns_empty_terminal() {
    let mut read = read_half(vec![RecvEvent::End]);
    assert_eq!(read.poll_bytes().unwrap(), Vec::<u8>::new());
    // The script is exhausted: further pulls stay terminal.
    assert_eq!(read.poll_bytes().unwrap(), Vec::<u8>::new());
    assert!(read.recv_stream.released.is_empty());
}

#[test]
fn read_empty_final_chunk_is_delivered() {
    let mut read = read_half(vec![RecvEvent::Data { chunk: vec![], end_after: true }]);
    assert_eq!(read.poll_bytes().unwrap(), Vec::<u8>::new());
    assert_eq!(read.recv_stream.released, vec![0]);
}

#[test]
fn read_clean_reset_is_terminal_not_error() {
    for reason in [NO_ERROR, CANCEL] {
        let mut read = read_half(vec![RecvEvent::Failed(LowerError::Proto(Some(reason)))]);
        assert_eq!(read.poll_bytes().unwrap(), Vec::<u8>::new());
        assert!(read.recv_stream.released.is_empty());
    }
}

#[test]
fn read_stream_closed_reset_is_broken_pipe() {
    let mut read = read_half(vec![RecvEvent::Failed(LowerError::Proto(Some(STREAM_CLOSED)))]);
    assert_eq!(read.poll_bytes().unwrap_err(), StreamErrorKind::BrokenPipe);
}

#[test]
fn read_unknown_reset_is_opaque() {
    let mut read = read_half(vec![RecvEvent::Failed(LowerError::Proto(Some(2)))]);
    assert_eq!(read.poll_bytes().unwrap_err(), StreamErrorKind::Other);
}

#[test]
fn resize_is_a_noop() {
    let mut read = read_half(vec![RecvEvent::Data { chunk: vec![9], end_after: false }]);
    read.resize(4096);
    assert_eq!(read.recv_stream.pos, 0);
    assert!(read.recv_stream.released.is_empty());
    assert_eq!(read.poll_bytes().unwrap(), vec![9]);
}

#[test]
fn partial_write_sends_exactly_the_granted_prefix() {
    let data: Vec<u8> = (0..250).cycle().take(1000).map(|b| b as u8).collect();
    let mut write = write_half(vec![CapacityEvent::Granted(300)], None, Ok(NO_ERROR));
    let written = write.poll_write_buf(&data).unwrap();
    assert_eq!(written, 300);
    assert_eq!(write.send_stream.sent, data[..300].to_vec());
    assert!(!write.send_stream.ended);
}

#[test]
fn empty_write_is_a_noop_success() {
    let mut write = quiet_write_half();
    assert_eq!(write.poll_write_buf(&Vec::new()).unwrap(), 0);
    assert!(write.send_stream.sent.is_empty());
    assert_eq!(write.send_stream.reserved, 0);
}

#[test]
fn write_on_closed_capacity_reports_zero() {
    let mut write = write_half(vec![CapacityEvent::Closed], None, Ok(NO_ERROR));
    assert_eq!(write.poll_write_buf(&vec![1, 2, 3]).unwrap(), 0);
    assert!(write.send_stream.sent.is_empty());
}

#[test]
fn write_capacity_failure_defers_to_reset_reason() {
    let mut write = write_half(
        vec![CapacityEvent::Failed(LowerError::Proto(None))],
        None,
        Ok(STREAM_CLOSED),
    );
    assert_eq!(
        write.poll_write_buf(&vec![1, 2]).unwrap_err(),
        StreamErrorKind::BrokenPipe
    );

    let mut write = write_half(
        vec![CapacityEvent::Failed(LowerError::Proto(None))],
        None,
        Ok(2),
    );
    assert_eq!(
        write.poll_write_buf(&vec![1, 2]).unwrap_err(),
        StreamErrorKind::Other
    );
}

#[test]
fn write_refused_frame_defers_to_reset_reason() {
    let mut write = write_half(
        vec![CapacityEvent::Granted(2)],
        Some(LowerError::Proto(Some(CANCEL))),
        Ok(NO_ERROR),
    );
    assert_eq!(
        write.poll_write_buf(&vec![7, 8]).unwrap_err(),
        StreamErrorKind::BrokenPipe
    );
    assert!(write.send_stream.sent.is_empty());
}

#[test]
fn flush_is_a_noop_success() {
    let mut write = quiet_write_half();
    assert_eq!(write.poll_flush(), Ok(()));
    assert!(!write.send_stream.ended);
}

#[test]
fn shutdown_sends_end_of_stream() {
    let mut write = quiet_write_half();
    assert_eq!(write.poll_shutdown(), Ok(()));
    assert!(write.send_stream.ended);
    assert!(write.send_stream.sent.is_empty());
}

#[test]
fn shutdown_fallback_no_error_is_success() {
    let mut write = write_half(Vec::new(), Some(LowerError::Proto(None)), Ok(NO_ERROR));
    assert_eq!(write.poll_shutdown(), Ok(()));
    assert!(!write.send_stream.ended);
}

#[test]
fn shutdown_fallback_cancel_is_broken_pipe() {
    let mut write = write_half(Vec::new(), Some(LowerError::Proto(None)), Ok(CANCEL));
    assert_eq!(write.poll_shutdown(), Err(StreamErrorKind::BrokenPipe));
}

#[test]
fn split_returns_the_two_halves() {
    let stream = H2Stream::new(
        read_half(vec![RecvEvent::Data { chunk: vec![4], end_after: false }]),
        quiet_write_half(),
    );
    let (mut read, write) = stream.split_into_buffered_reader();
    assert_eq!(read.poll_bytes().unwrap(), vec![4]);
    assert!(!write.send_stream.ended);
}

#[test]
fn buffered_read_yields_hello_then_terminal() {
    let events = vec![
        RecvEvent::Data { chunk: b"hello".to_vec(), end_after: false },
        RecvEvent::End,
    ];
    let mut rw = RWStream::new(H2Stream::new(read_half(events), quiet_write_half()));
    assert_eq!(rw.poll_read(8).unwrap(), b"hello".to_vec());
    assert_eq!(rw.poll_read(8).unwrap(), Vec::<u8>::new());
    assert_eq!(rw.stream.read.recv_stream.released, vec![5]);
}

#[test]
fn buffered_read_splits_leftover_across_calls() {
    let events = vec![RecvEvent::Data { chunk: vec![1, 2, 3, 4, 5], end_after: false }];
    let mut rw = RWStream::new(H2Stream::new(read_half(events), quiet_write_half()));
    assert_eq!(rw.poll_read(2).unwrap(), vec![1, 2]);
    assert_eq!(rw.poll_read(2).unwrap(), vec![3, 4]);
    assert_eq!(rw.poll_read(2).unwrap(), vec![5]);
    // Leftover exhausted and the script ran out: terminal empty read.
    assert_eq!(rw.poll_read(2).unwrap(), Vec::<u8>::new());
    // Credit was released once, for the whole chunk, at delivery.
    assert_eq!(rw.stream.read.recv_stream.released, vec![5]);
}

#[test]
fn buffered_write_delegates_to_the_write_half() {
    let mut rw = RWStream::new(H2Stream::new(
        read_half(Vec::new()),
        write_half(vec![CapacityEvent::Granted(3)], None, Ok(NO_ERROR)),
    ));
    assert_eq!(rw.poll_write(&vec![1, 2, 3]).unwrap(), 3);
    assert_eq!(rw.stream.write.send_stream.sent, vec![1, 2, 3]);
    assert_eq!(rw.poll_flush(), Ok(()));
    assert_eq!(rw.poll_shutdown(), Ok(()));
    assert!(rw.stream.write.send_stream.ended);
}

#[test]
fn zero_copy_overflow_is_an_explicit_error() {
    let events = vec![RecvEvent::Data { chunk: vec![1, 2, 3, 4, 5, 6], end_after: false }];
    let mut t = TokioH2Stream::new(H2Stream::new(read_half(events), quiet_write_half()));
    let got = t.poll_read(4);
    assert_eq!(got.unwrap_err(), StreamErrorKind::Overflow);
}

#[test]
fn zero_copy_exact_chunk_is_delivered() {
    let events = vec![
        RecvEvent::Data { chunk: vec![1, 2, 3, 4, 5], end_after: false },
        RecvEvent::End,
    ];
    let mut t = TokioH2Stream::new(H2Stream::new(read_half(events), quiet_write_half()));
    assert_eq!(t.poll_read(5).unwrap(), vec![1, 2, 3, 4, 5]);
    assert_eq!(t.poll_read(5).unwrap(), Vec::<u8>::new());
    assert_eq!(t.stream.read.recv_stream.released, vec![5]);
}

#[test]
fn zero_copy_write_and_shutdown_delegate() {
    let mut t = TokioH2Stream::new(H2Stream::new(
        read_half(Vec::new()),
        write_half(vec![CapacityEvent::Granted(2)], None, Ok(NO_ERROR)),
    ));
    assert_eq!(t.poll_write(&vec![9, 9, 9]).unwrap(), 2);
    assert_eq!(t.stream.write.send_stream.sent, vec![9, 9]);
    assert_eq!(t.poll_flush(), Ok(()));
    assert_eq!(t.poll_shutdown(), Ok(()));
}
