//! Error classification: maps multiplexed-stream-layer failures and
//! stream-reset reason codes onto the generic I/O error taxonomy that the
//! upper proxy layers consume.
//!
//! Reason codes are the wire-level HTTP/2 error codes; only the three that
//! the classification distinguishes are named here, every other code falls
//! into the opaque bucket.
use vstd::prelude::*;

verus! {

/// Wire code for a clean, intentional end of stream.
pub const NO_ERROR: u32 = 0;
/// Wire code for a reset of a stream the peer considers already closed.
pub const STREAM_CLOSED: u32 = 5;
/// Wire code for a deliberate cancellation, also treated as clean.
pub const CANCEL: u32 = 8;

/// The error taxonomy surfaced to callers of the byte-stream interface.
#[derive(Clone, Copy, Debug, PartialEq, Eq, Structural)]
pub enum StreamErrorKind {
    /// The peer reset the stream as already closed, or capacity negotiation
    /// collapsed: the transport is broken.
    BrokenPipe,
    /// A zero-copy read was handed a destination buffer smaller than the
    /// received chunk: adapter misuse, reported loudly instead of truncating.
    Overflow,
    /// Any other protocol failure, wrapping the original cause opaquely.
    Other,
}

/// What the adapter can read out of a multiplexed-layer error: either the
/// error already wraps a plain I/O failure (carried through unchanged), or
/// it is a protocol-level error with an optional stream-reset reason code.
#[derive(Clone, Copy, Debug, PartialEq, Eq, Structural)]
pub enum LowerError {
    /// The lower layer surfaced a genuine I/O failure of this kind.
    Io(StreamErrorKind),
    /// A protocol-level error; the reason code is absent when the error was
    /// not a stream reset.
    Proto(Option<u32>),
}

/// The three-way classification of a reset reason code.
#[derive(Clone, Copy, Debug, PartialEq, Eq, Structural)]
pub enum ResetClass {
    /// A benign end of stream: never surfaced as a failure.
    Clean,
    /// The peer considers the stream closed: broken transport.
    Broken,
    /// Anything else: opaque protocol failure.
    Opaque,
}

/// Classification of a reason code, applied identically on the read path and
/// the write/shutdown path.
pub open spec fn classify_reset_spec(reason: Option<u32>) -> ResetClass {
    match reason {
        Some(code) => if code == NO_ERROR || code == CANCEL {
            ResetClass::Clean
        } else if code == STREAM_CLOSED {
            ResetClass::Broken
        } else {
            ResetClass::Opaque
        },
        None => ResetClass::Opaque,
    }
}

/// Classifies a stream-reset reason code: `NO_ERROR` and `CANCEL` are clean,
/// `STREAM_CLOSED` is a broken transport, everything else (including the
/// absence of a reason) is an opaque failure.
pub fn classify_reset(reason: Option<u32>) -> (c: ResetClass)
    ensures
        c == classify_reset_spec(reason),
{
    match reason {
        Some(code) => {
            if code == NO_ERROR || code == CANCEL {
                ResetClass::Clean
            } else if code == STREAM_CLOSED {
                ResetClass::Broken
            } else {
                ResetClass::Opaque
            }
        },
        None => ResetClass::Opaque,
    }
}

/// What a lower-layer error becomes when it must be surfaced as an I/O error:
/// an error that already is an I/O failure is passed through unchanged, any
/// other is wrapped opaquely.
pub open spec fn h2_to_io_error_spec(e: LowerError) -> StreamErrorKind {
    match e {
        LowerError::Io(kind) => kind,
        LowerError::Proto(_) => StreamErrorKind::Other,
    }
}

/// Converts a lower-layer error into the I/O taxonomy: unwrap a genuine I/O
/// failure unchanged, wrap everything else as an opaque failure.
pub fn h2_to_io_error(e: &LowerError) -> (k: StreamErrorKind)
    ensures
        k == h2_to_io_error_spec(*e),
{
    match e {
        LowerError::Io(kind) => *kind,
        LowerError::Proto(_) => StreamErrorKind::Other,
    }
}

/// The reason code the read path inspects on a lower-layer error: an error
/// that already wraps an I/O failure carries no reset reason.
pub open spec fn read_reason_spec(e: LowerError) -> Option<u32> {
    match e {
        LowerError::Io(_) => None,
        LowerError::Proto(reason) => reason,
    }
}

/// What the read path does with a lower-layer error: a clean reason becomes
/// a terminal end of stream, never an error; anything else surfaces.
#[derive(Clone, Copy, Debug, PartialEq, Eq, Structural)]
pub enum ReadDisposition {
    /// Report a terminal empty chunk to the reader.
    EndOfStream,
    /// Surface this failure to the reader.
    Surface(StreamErrorKind),
}

/// The read-path classification: `NO_ERROR` and `CANCEL` end the stream
/// silently, `STREAM_CLOSED` is a broken pipe, everything else is converted
/// like any lower-layer error.
pub open spec fn read_error_spec(e: LowerError) -> ReadDisposition {
    match classify_reset_spec(read_reason_spec(e)) {
        ResetClass::Clean => ReadDisposition::EndOfStream,
        ResetClass::Broken => ReadDisposition::Surface(StreamErrorKind::BrokenPipe),
        ResetClass::Opaque => ReadDisposition::Surface(h2_to_io_error_spec(e)),
    }
}

/// Applies the read-path classification to a lower-layer error.
pub fn read_error_disposition(e: &LowerError) -> (d: ReadDisposition)
    ensures
        d == read_error_spec(*e),
{
    let reason = match e {
        LowerError::Io(_) => None,
        LowerError::Proto(reason) => *reason,
    };
    match classify_reset(reason) {
        ResetClass::Clean => ReadDisposition::EndOfStream,
        ResetClass::Broken => ReadDisposition::Surface(StreamErrorKind::BrokenPipe),
        ResetClass::Opaque => ReadDisposition::Surface(h2_to_io_error(e)),
    }
}

/// The error a failed write reports once the stream's reset reason has been
/// polled as the authoritative cause: a reset the peer already accounted for
/// (`NO_ERROR`, `CANCEL`, `STREAM_CLOSED`) is a broken pipe, any other reason
/// is opaque, and a failure of the reset poll itself is converted like any
/// lower-layer error.
pub open spec fn write_reset_error_spec(reset: Result<u32, LowerError>) -> StreamErrorKind {
    match reset {
        Ok(code) => if code == NO_ERROR || code == CANCEL || code == STREAM_CLOSED {
            StreamErrorKind::BrokenPipe
        } else {
            StreamErrorKind::Other
        },
        Err(e) => h2_to_io_error_spec(e),
    }
}

/// Applies the write-path reset classification.
pub fn write_reset_error(reset: &Result<u32, LowerError>) -> (k: StreamErrorKind)
    ensures
        k == write_reset_error_spec(*reset),
{
    match reset {
        Ok(code) => {
            if *code == NO_ERROR || *code == CANCEL || *code == STREAM_CLOSED {
                StreamErrorKind::BrokenPipe
            } else {
                StreamErrorKind::Other
            }
        },
        Err(e) => h2_to_io_error(e),
    }
}

/// What a failed shutdown reports once the reset reason has been polled:
/// `NO_ERROR` means the peer closed cleanly first and the shutdown succeeded;
/// `CANCEL` and `STREAM_CLOSED` are a broken pipe; any other reason is
/// opaque; a failure of the reset poll itself is converted like any
/// lower-layer error.
pub open spec fn shutdown_reset_spec(reset: Result<u32, LowerError>) -> Result<
    (),
    StreamErrorKind,
> {
    match reset {
        Ok(code) => if code == NO_ERROR {
            Ok(())
        } else if code == CANCEL || code == STREAM_CLOSED {
            Err(StreamErrorKind::BrokenPipe)
        } else {
            Err(StreamErrorKind::Other)
        },
        Err(e) => Err(h2_to_io_error_spec(e)),
    }
}

/// Applies the shutdown-path reset classification.
pub fn shutdown_reset_result(reset: &Result<u32, LowerError>) -> (r: Result<(), StreamErrorKind>)
    ensures
        r == shutdown_reset_spec(*reset),
{
    match reset {
        Ok(code) => {
            if *code == NO_ERROR {
                Ok(())
            } else if *code == CANCEL || *code == STREAM_CLOSED {
                Err(StreamErrorKind::BrokenPipe)
            } else {
                Err(StreamErrorKind::Other)
            }
        },
        Err(e) => Err(h2_to_io_error(e)),
    }
}

/// Law: a reset with reason `NO_ERROR` or `CANCEL` is clean — fed to the
/// classifier during a read it yields a terminal end of stream and not an
/// error, and a shutdown whose reset-reason fallback reports `NO_ERROR`
/// counts as success. (On the write-capacity fallback, and for `CANCEL` on
/// shutdown, the adapter instead reports a broken pipe — there the peer tore
/// the stream down before the local side was done with it; those inputs are
/// not claimed here.)
pub proof fn lemma_clean_reason_transparency()
    ensures
        classify_reset_spec(Some(NO_ERROR)) == ResetClass::Clean,
        classify_reset_spec(Some(CANCEL)) == ResetClass::Clean,
        read_error_spec(LowerError::Proto(Some(NO_ERROR))) == ReadDisposition::EndOfStream,
        read_error_spec(LowerError::Proto(Some(CANCEL))) == ReadDisposition::EndOfStream,
        shutdown_reset_spec(Ok(NO_ERROR)) == Ok::<(), StreamErrorKind>(()),
{
}

/// Law: a reset with reason `STREAM_CLOSED` yields a broken-pipe error from
/// the direct classifier, from the read path, and from the write and
/// shutdown reset-reason fallback paths alike.
pub proof fn lemma_reset_reason_fidelity()
    ensures
        classify_reset_spec(Some(STREAM_CLOSED)) == ResetClass::Broken,
        read_error_spec(LowerError::Proto(Some(STREAM_CLOSED))) == ReadDisposition::Surface(
            StreamErrorKind::BrokenPipe,
        ),
        write_reset_error_spec(Ok(STREAM_CLOSED)) == StreamErrorKind::BrokenPipe,
        shutdown_reset_spec(Ok(STREAM_CLOSED)) == Err::<(), StreamErrorKind>(
            StreamErrorKind::BrokenPipe,
        ),
{
}

} // verus!
