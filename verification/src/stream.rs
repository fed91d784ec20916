//! The duplex-stream adapter: a read half that pulls byte chunks and
//! releases flow-control credit, a write half that reserves capacity and
//! pushes byte chunks, their fusion into one stream object, and the two
//! outward-facing wrappers — one buffering leftover bytes between calls,
//! one handing chunks over zero-copy and failing loudly on overflow.
use vstd::prelude::*;

use crate::classify::{
    read_error_disposition, read_error_spec, shutdown_reset_result, shutdown_reset_spec,
    write_reset_error, write_reset_error_spec, ReadDisposition, StreamErrorKind,
};
use crate::chunk::{vec_copy, vec_prefix, vec_suffix};
use crate::fake::{next_capacity_spec, CapacityEvent, FakeRecvStream, FakeSendStream, RecvEvent};

verus! {

/// What one pull from the receive direction resolves to, over the script:
/// a non-empty (or stream-final) chunk, the end of the stream, or an error.
pub enum ReadOutcome {
    Delivered(Seq<u8>),
    Ended,
    Failed(StreamErrorKind),
}

/// Resolves a pull that starts at event `i`: empty non-final chunks are
/// skipped, the first effective event decides; a script that ran out, an
/// end event and a cleanly classified error all end the stream.
pub open spec fn read_outcome(events: Seq<RecvEvent>, i: int) -> ReadOutcome
    decreases events.len() - i,
{
    if i < 0 || i >= events.len() {
        ReadOutcome::Ended
    } else {
        match events[i] {
            RecvEvent::Data { chunk, end_after } => if chunk@.len() == 0 && !end_after {
                read_outcome(events, i + 1)
            } else {
                ReadOutcome::Delivered(chunk@)
            },
            RecvEvent::End => ReadOutcome::Ended,
            RecvEvent::Failed(e) => match read_error_spec(e) {
                ReadDisposition::EndOfStream => ReadOutcome::Ended,
                ReadDisposition::Surface(k) => ReadOutcome::Failed(k),
            },
        }
    }
}

/// The script position after a pull that starts at event `i`: every skipped
/// event and the deciding event are consumed.
pub open spec fn read_consumed(events: Seq<RecvEvent>, i: int) -> int
    decreases events.len() - i,
{
    if i < 0 || i >= events.len() {
        i
    } else {
        match events[i] {
            RecvEvent::Data { chunk, end_after } => if chunk@.len() == 0 && !end_after {
                read_consumed(events, i + 1)
            } else {
                i + 1
            },
            RecvEvent::End => i + 1,
            RecvEvent::Failed(_) => i + 1,
        }
    }
}

/// The receive side is untouched.
pub open spec fn recv_unchanged(pre: FakeRecvStream, post: FakeRecvStream) -> bool {
    &&& post.events@ == pre.events@
    &&& post.pos == pre.pos
    &&& post.released@ == pre.released@
}

/// The send side is untouched.
pub open spec fn send_unchanged(pre: FakeSendStream, post: FakeSendStream) -> bool {
    &&& post.capacity@ == pre.capacity@
    &&& post.cap_pos == pre.cap_pos
    &&& post.reserved == pre.reserved
    &&& post.send_error == pre.send_error
    &&& post.reset == pre.reset
    &&& post.sent@ == pre.sent@
    &&& post.ended == pre.ended
}

/// The full effect of one pull on the receive side: the deciding events are
/// consumed; a delivered chunk has its length released as flow-control
/// credit before it is returned, any other outcome releases nothing.
pub open spec fn poll_bytes_rel(
    pre: FakeRecvStream,
    post: FakeRecvStream,
    r: Result<Vec<u8>, StreamErrorKind>,
) -> bool {
    &&& post.events@ == pre.events@
    &&& post.pos as int == read_consumed(pre.events@, pre.pos as int)
    &&& post.pos <= post.events@.len()
    &&& match read_outcome(pre.events@, pre.pos as int) {
        ReadOutcome::Delivered(c) => r matches Ok(v) && v@ == c && post.released@
            == pre.released@.push(c.len() as usize),
        ReadOutcome::Ended => r matches Ok(v) && v@.len() == 0 && post.released@ == pre.released@,
        ReadOutcome::Failed(k) => r matches Err(e) && e == k && post.released@ == pre.released@,
    }
}

/// The full effect of one push of `buf` on the send side: an empty push is
/// a no-op success; otherwise the chunk's length is reserved, one capacity
/// answer is consumed, and a grant of `g` sends exactly the first `g` bytes
/// — a failure leaves the reset reason as the authoritative error.
pub open spec fn write_buf_rel(
    pre: FakeSendStream,
    post: FakeSendStream,
    buf: Seq<u8>,
    r: Result<usize, StreamErrorKind>,
) -> bool {
    &&& post.capacity@ == pre.capacity@
    &&& post.send_error == pre.send_error
    &&& post.reset == pre.reset
    &&& post.ended == pre.ended
    &&& if buf.len() == 0 {
        &&& post.cap_pos == pre.cap_pos
        &&& post.reserved == pre.reserved
        &&& post.sent@ == pre.sent@
        &&& r == Ok::<usize, StreamErrorKind>(0)
    } else {
        &&& post.reserved as int == buf.len() as int
        &&& post.cap_pos as int == if pre.cap_pos < pre.capacity@.len() {
            pre.cap_pos as int + 1
        } else {
            pre.cap_pos as int
        }
        &&& match next_capacity_spec(pre.capacity@, pre.cap_pos as int, post.reserved) {
            CapacityEvent::Closed => r == Ok::<usize, StreamErrorKind>(0) && post.sent@
                == pre.sent@,
            CapacityEvent::Granted(g) => match pre.send_error {
                None => r == Ok::<usize, StreamErrorKind>(g) && post.sent@ == pre.sent@
                    + buf.subrange(0, g as int),
                Some(_) => r == Err::<usize, StreamErrorKind>(write_reset_error_spec(pre.reset))
                    && post.sent@ == pre.sent@,
            },
            CapacityEvent::Failed(_) => r == Err::<usize, StreamErrorKind>(
                write_reset_error_spec(pre.reset),
            ) && post.sent@ == pre.sent@,
        }
    }
}

/// The full effect of a shutdown: an accepted end-of-stream frame is
/// success; a refused one defers to the reset reason, where `NO_ERROR`
/// still counts as success.
pub open spec fn shutdown_rel(
    pre: FakeSendStream,
    post: FakeSendStream,
    r: Result<(), StreamErrorKind>,
) -> bool {
    &&& post.capacity@ == pre.capacity@
    &&& post.cap_pos == pre.cap_pos
    &&& post.reserved == pre.reserved
    &&& post.send_error == pre.send_error
    &&& post.reset == pre.reset
    &&& post.sent@ == pre.sent@
    &&& match pre.send_error {
        None => r == Ok::<(), StreamErrorKind>(()) && post.ended,
        Some(_) => r == shutdown_reset_spec(pre.reset) && post.ended == pre.ended,
    }
}

/// The read half of one logical stream: pulls chunks from the receive
/// direction and releases flow-control credit for what it accepted.
pub struct H2StreamReadHalf {
    pub recv_stream: FakeRecvStream,
}

/// What one receive event resolves to, before the pull loop decides whether
/// to retry.
enum ReadStep {
    Skip,
    Deliver(Vec<u8>),
    Ended,
    Failed(StreamErrorKind),
}

/// Resolves one receive event: an empty chunk on a stream that has not
/// ended is a spurious wakeup to be retried; everything else decides.
fn read_step(ev: &RecvEvent) -> (s: ReadStep)
    ensures
        match *ev {
            RecvEvent::Data { chunk, end_after } => if chunk@.len() == 0 && !end_after {
                s matches ReadStep::Skip
            } else {
                s matches ReadStep::Deliver(v) && v@ == chunk@
            },
            RecvEvent::End => s matches ReadStep::Ended,
            RecvEvent::Failed(e) => match read_error_spec(e) {
                ReadDisposition::EndOfStream => s matches ReadStep::Ended,
                ReadDisposition::Surface(k) => s matches ReadStep::Failed(kk) && kk == k,
            },
        },
{
    match ev {
        RecvEvent::Data { chunk, end_after } => {
            if chunk.len() == 0 && !*end_after {
                ReadStep::Skip
            } else {
                ReadStep::Deliver(vec_copy(chunk))
            }
        },
        RecvEvent::End => ReadStep::Ended,
        RecvEvent::Failed(e) => {
            match read_error_disposition(e) {
                ReadDisposition::EndOfStream => ReadStep::Ended,
                ReadDisposition::Surface(k) => ReadStep::Failed(k),
            }
        },
    }
}

impl H2StreamReadHalf {
    /// Pulls the next chunk: retries past empty non-final chunks, releases
    /// flow-control credit for a delivered chunk before returning it, and
    /// reports the end of the stream as an empty chunk — a reset with a
    /// clean reason included.
    pub fn poll_bytes(&mut self) -> (r: Result<Vec<u8>, StreamErrorKind>)
        requires
            old(self).recv_stream.pos <= old(self).recv_stream.events@.len(),
        ensures
            poll_bytes_rel(old(self).recv_stream, final (self).recv_stream, r),
    {
        loop
            invariant
                self.recv_stream.pos <= self.recv_stream.events@.len(),
                self.recv_stream.events@ == old(self).recv_stream.events@,
                self.recv_stream.released@ == old(self).recv_stream.released@,
                read_outcome(self.recv_stream.events@, self.recv_stream.pos as int)
                    == read_outcome(old(self).recv_stream.events@, old(self).recv_stream.pos as int),
                read_consumed(self.recv_stream.events@, self.recv_stream.pos as int)
                    == read_consumed(
                    old(self).recv_stream.events@,
                    old(self).recv_stream.pos as int,
                ),
            decreases self.recv_stream.events@.len() - self.recv_stream.pos,
        {
            let pos = self.recv_stream.pos;
            if pos >= self.recv_stream.events.len() {
                return Ok(Vec::new());
            }
            let step = read_step(&self.recv_stream.events[pos]);
            self.recv_stream.pos = pos + 1;
            match step {
                ReadStep::Skip => {},
                ReadStep::Deliver(chunk) => {
                    self.recv_stream.release_capacity(chunk.len());
                    return Ok(chunk);
                },
                ReadStep::Ended => {
                    return Ok(Vec::new());
                },
                ReadStep::Failed(k) => {
                    return Err(k);
                },
            }
        }
    }

    /// Resizing is a no-op: buffer sizing is owned by the multiplexed layer,
    /// not by this adapter.
    pub fn resize(&mut self, _new_size: usize)
        ensures
            recv_unchanged(old(self).recv_stream, final (self).recv_stream),
    {
    }
}

/// The write half of one logical stream: reserves send capacity and pushes
/// the granted prefix of each chunk.
pub struct H2StreamWriteHalf {
    pub send_stream: FakeSendStream,
}

impl H2StreamWriteHalf {
    /// Sends one frame, converting a refusal into the I/O taxonomy.
    fn write_slice(&mut self, buf: Vec<u8>, end_of_stream: bool) -> (r: Result<
        (),
        StreamErrorKind,
    >)
        ensures
            final (self).send_stream.capacity@ == old(self).send_stream.capacity@,
            final (self).send_stream.cap_pos == old(self).send_stream.cap_pos,
            final (self).send_stream.reserved == old(self).send_stream.reserved,
            final (self).send_stream.send_error == old(self).send_stream.send_error,
            final (self).send_stream.reset == old(self).send_stream.reset,
            match old(self).send_stream.send_error {
                None => {
                    &&& r == Ok::<(), StreamErrorKind>(())
                    &&& final (self).send_stream.sent@ == old(self).send_stream.sent@ + buf@
                    &&& final (self).send_stream.ended == (old(self).send_stream.ended
                        || end_of_stream)
                },
                Some(e) => {
                    &&& r == Err::<(), StreamErrorKind>(crate::classify::h2_to_io_error_spec(e))
                    &&& final (self).send_stream.sent@ == old(self).send_stream.sent@
                    &&& final (self).send_stream.ended == old(self).send_stream.ended
                },
            },
    {
        match self.send_stream.send_data(&buf, end_of_stream) {
            Ok(()) => Ok(()),
            Err(e) => Err(crate::classify::h2_to_io_error(&e)),
        }
    }

    /// Pushes a chunk: reserves capacity for its full length, sends the
    /// granted prefix, and reports how much was sent — a partial write is
    /// expected, the caller resubmits the rest. On failure the stream's
    /// reset reason is polled as the authoritative error.
    pub fn poll_write_buf(&mut self, buf: &Vec<u8>) -> (r: Result<usize, StreamErrorKind>)
        ensures
            write_buf_rel(old(self).send_stream, final (self).send_stream, buf@, r),
    {
        if buf.len() == 0 {
            return Ok(0);
        }
        self.send_stream.reserve_capacity(buf.len());
        let ev = self.send_stream.poll_capacity();
        let cnt: Option<usize> = match ev {
            CapacityEvent::Closed => Some(0),
            CapacityEvent::Granted(g) => {
                let prefix = vec_prefix(buf, g);
                match self.write_slice(prefix, false) {
                    Ok(()) => Some(g),
                    Err(_) => None,
                }
            },
            CapacityEvent::Failed(_) => None,
        };
        match cnt {
            Some(c) => Ok(c),
            None => {
                let reset = self.send_stream.poll_reset();
                Err(write_reset_error(&reset))
            },
        }
    }

    /// Flushing is a no-op: the transport has no separate flush concept.
    pub fn poll_flush(&mut self) -> (r: Result<(), StreamErrorKind>)
        ensures
            send_unchanged(old(self).send_stream, final (self).send_stream),
            r == Ok::<(), StreamErrorKind>(()),
    {
        Ok(())
    }

    /// Shuts the send direction down with an empty end-of-stream frame; if
    /// that is refused, the reset reason decides, `NO_ERROR` counting as
    /// success.
    pub fn poll_shutdown(&mut self) -> (r: Result<(), StreamErrorKind>)
        ensures
            shutdown_rel(old(self).send_stream, final (self).send_stream, r),
    {
        let r = self.write_slice(Vec::new(), true);
        proof {
            assert(old(self).send_stream.sent@ + Seq::<u8>::empty() =~= old(
                self,
            ).send_stream.sent@);
        }
        match r {
            Ok(()) => Ok(()),
            Err(_) => {
                let reset = self.send_stream.poll_reset();
                shutdown_reset_result(&reset)
            },
        }
    }
}

/// An active logical stream: one read half and one write half, released
/// independently and in either order. The half-close accounting for the two
/// halves lives in the tracker module, whose tokens the running system
/// embeds in the halves it hands out.
pub struct H2Stream {
    pub read: H2StreamReadHalf,
    pub write: H2StreamWriteHalf,
}

impl H2Stream {
    /// Fuses a read half and a write half into one stream object.
    pub fn new(read: H2StreamReadHalf, write: H2StreamWriteHalf) -> (s: H2Stream)
        ensures
            s.read == read,
            s.write == write,
    {
        H2Stream { read, write }
    }

    /// Splits the stream back into its two halves.
    pub fn split_into_buffered_reader(self) -> (r: (H2StreamReadHalf, H2StreamWriteHalf))
        ensures
            r.0 == self.read,
            r.1 == self.write,
    {
        let H2Stream { read, write } = self;
        (read, write)
    }
}

/// The part of a chunk that fits a destination of capacity `cap`.
pub open spec fn take_prefix(c: Seq<u8>, cap: int) -> Seq<u8> {
    if c.len() <= cap {
        c
    } else {
        c.subrange(0, cap)
    }
}

/// The leftover of a chunk once a destination of capacity `cap` was filled.
pub open spec fn drop_prefix(c: Seq<u8>, cap: int) -> Seq<u8> {
    if c.len() <= cap {
        Seq::<u8>::empty()
    } else {
        c.subrange(cap, c.len() as int)
    }
}

/// The buffering wrapper: presents the stream through the byte-destination
/// read contract by keeping at most one pending chunk of leftover bytes,
/// splitting it to fit the caller's destination.
pub struct RWStream {
    pub stream: H2Stream,
    pub buf: Vec<u8>,
}

impl RWStream {
    /// Wraps a stream with an empty leftover buffer.
    pub fn new(stream: H2Stream) -> (s: RWStream)
        ensures
            s.stream == stream,
            s.buf@ =~= Seq::<u8>::empty(),
    {
        RWStream { stream, buf: Vec::new() }
    }

    /// Fills a destination of capacity `dest_capacity`: serves leftover
    /// bytes first and pulls a fresh chunk only once they are exhausted;
    /// what does not fit is kept for the next call. An empty result means
    /// the stream has ended.
    pub fn poll_read(&mut self, dest_capacity: usize) -> (r: Result<Vec<u8>, StreamErrorKind>)
        requires
            old(self).stream.read.recv_stream.pos <= old(self).stream.read.recv_stream.events@.len(),
        ensures
            final (self).stream.write == old(self).stream.write,
            if old(self).buf@.len() > 0 {
                &&& recv_unchanged(
                    old(self).stream.read.recv_stream,
                    final (self).stream.read.recv_stream,
                )
                &&& r matches Ok(v) && v@ == take_prefix(old(self).buf@, dest_capacity as int)
                &&& final (self).buf@ == drop_prefix(old(self).buf@, dest_capacity as int)
            } else {
                &&& final (self).stream.read.recv_stream.events@ == old(
                    self,
                ).stream.read.recv_stream.events@
                &&& final (self).stream.read.recv_stream.pos as int == read_consumed(
                    old(self).stream.read.recv_stream.events@,
                    old(self).stream.read.recv_stream.pos as int,
                )
                &&& match read_outcome(
                    old(self).stream.read.recv_stream.events@,
                    old(self).stream.read.recv_stream.pos as int,
                ) {
                    ReadOutcome::Delivered(c) => {
                        &&& final (self).stream.read.recv_stream.released@ == old(
                            self,
                        ).stream.read.recv_stream.released@.push(c.len() as usize)
                        &&& r matches Ok(v) && v@ == take_prefix(c, dest_capacity as int)
                        &&& final (self).buf@ == drop_prefix(c, dest_capacity as int)
                    },
                    ReadOutcome::Ended => {
                        &&& final (self).stream.read.recv_stream.released@ == old(
                            self,
                        ).stream.read.recv_stream.released@
                        &&& r matches Ok(v) && v@.len() == 0
                        &&& final (self).buf@.len() == 0
                    },
                    ReadOutcome::Failed(k) => {
                        &&& final (self).stream.read.recv_stream.released@ == old(
                            self,
                        ).stream.read.recv_stream.released@
                        &&& r matches Err(e) && e == k
                        &&& final (self).buf@.len() == 0
                    },
                }
            },
    {
        if self.buf.len() == 0 {
            match self.stream.read.poll_bytes() {
                Ok(chunk) => {
                    self.buf = chunk;
                },
                Err(k) => {
                    return Err(k);
                },
            }
        }
        let cnt = if self.buf.len() < dest_capacity {
            self.buf.len()
        } else {
            dest_capacity
        };
        let out = vec_prefix(&self.buf, cnt);
        let rest = vec_suffix(&self.buf, cnt);
        proof {
            if self.buf@.len() <= dest_capacity {
                assert(self.buf@.subrange(0, self.buf@.len() as int) =~= self.buf@);
                assert(self.buf@.subrange(self.buf@.len() as int, self.buf@.len() as int)
                    =~= Seq::<u8>::empty());
            }
        }
        self.buf = rest;
        Ok(out)
    }

    /// Pushes a chunk through the write half; a partial write is expected.
    pub fn poll_write(&mut self, buf: &Vec<u8>) -> (r: Result<usize, StreamErrorKind>)
        ensures
            final (self).stream.read == old(self).stream.read,
            final (self).buf@ == old(self).buf@,
            write_buf_rel(
                old(self).stream.write.send_stream,
                final (self).stream.write.send_stream,
                buf@,
                r,
            ),
    {
        self.stream.write.poll_write_buf(buf)
    }

    /// Flushing is a no-op.
    pub fn poll_flush(&mut self) -> (r: Result<(), StreamErrorKind>)
        ensures
            final (self).stream.read == old(self).stream.read,
            final (self).buf@ == old(self).buf@,
            send_unchanged(
                old(self).stream.write.send_stream,
                final (self).stream.write.send_stream,
            ),
            r == Ok::<(), StreamErrorKind>(()),
    {
        self.stream.write.poll_flush()
    }

    /// Shuts the send direction down.
    pub fn poll_shutdown(&mut self) -> (r: Result<(), StreamErrorKind>)
        ensures
            final (self).stream.read == old(self).stream.read,
            final (self).buf@ == old(self).buf@,
            shutdown_rel(
                old(self).stream.write.send_stream,
                final (self).stream.write.send_stream,
                r,
            ),
    {
        self.stream.write.poll_shutdown()
    }
}

/// The zero-copy wrapper: hands each received chunk to the caller in one
/// step and fails loudly — instead of truncating — when the caller's
/// destination is smaller than the chunk.
pub struct TokioH2Stream {
    pub stream: H2Stream,
}

impl TokioH2Stream {
    /// Wraps a stream.
    pub fn new(stream: H2Stream) -> (s: TokioH2Stream)
        ensures
            s.stream == stream,
    {
        TokioH2Stream { stream }
    }

    /// Pulls the next chunk for a destination of capacity `dest_capacity`:
    /// the exact received chunk is handed over, and a chunk larger than the
    /// destination is an explicit overflow error with no bytes delivered.
    pub fn poll_read(&mut self, dest_capacity: usize) -> (r: Result<Vec<u8>, StreamErrorKind>)
        requires
            old(self).stream.read.recv_stream.pos <= old(self).stream.read.recv_stream.events@.len(),
        ensures
            final (self).stream.write == old(self).stream.write,
            final (self).stream.read.recv_stream.events@ == old(
                self,
            ).stream.read.recv_stream.events@,
            final (self).stream.read.recv_stream.pos as int == read_consumed(
                old(self).stream.read.recv_stream.events@,
                old(self).stream.read.recv_stream.pos as int,
            ),
            match read_outcome(
                old(self).stream.read.recv_stream.events@,
                old(self).stream.read.recv_stream.pos as int,
            ) {
                ReadOutcome::Delivered(c) => {
                    &&& final (self).stream.read.recv_stream.released@ == old(
                        self,
                    ).stream.read.recv_stream.released@.push(c.len() as usize)
                    &&& if c.len() > dest_capacity {
                        r == Err::<Vec<u8>, StreamErrorKind>(StreamErrorKind::Overflow)
                    } else {
                        r matches Ok(v) && v@ == c
                    }
                },
                ReadOutcome::Ended => {
                    &&& final (self).stream.read.recv_stream.released@ == old(
                        self,
                    ).stream.read.recv_stream.released@
                    &&& r matches Ok(v) && v@.len() == 0
                },
                ReadOutcome::Failed(k) => {
                    &&& final (self).stream.read.recv_stream.released@ == old(
                        self,
                    ).stream.read.recv_stream.released@
                    &&& r matches Err(e) && e == k
                },
            },
    {
        match self.stream.read.poll_bytes() {
            Ok(chunk) => {
                if dest_capacity < chunk.len() {
                    Err(StreamErrorKind::Overflow)
                } else {
                    Ok(chunk)
                }
            },
            Err(k) => Err(k),
        }
    }

    /// Pushes a chunk through the write half; a partial write is expected.
    pub fn poll_write(&mut self, buf: &Vec<u8>) -> (r: Result<usize, StreamErrorKind>)
        ensures
            final (self).stream.read == old(self).stream.read,
            write_buf_rel(
                old(self).stream.write.send_stream,
                final (self).stream.write.send_stream,
                buf@,
                r,
            ),
    {
        self.stream.write.poll_write_buf(buf)
    }

    /// Flushing is a no-op.
    pub fn poll_flush(&mut self) -> (r: Result<(), StreamErrorKind>)
        ensures
            final (self).stream.read == old(self).stream.read,
            send_unchanged(
                old(self).stream.write.send_stream,
                final (self).stream.write.send_stream,
            ),
            r == Ok::<(), StreamErrorKind>(()),
    {
        self.stream.write.poll_flush()
    }

    /// Shuts the send direction down.
    pub fn poll_shutdown(&mut self) -> (r: Result<(), StreamErrorKind>)
        ensures
            final (self).stream.read == old(self).stream.read,
            shutdown_rel(
                old(self).stream.write.send_stream,
                final (self).stream.write.send_stream,
                r,
            ),
    {
        self.stream.write.poll_shutdown()
    }
}

} // verus!
