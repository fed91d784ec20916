//! A scripted in-memory stand-in for the multiplexed-stream layer. The
//! receive side replays a fixed sequence of frames and records every
//! flow-control credit release; the send side replays scripted capacity
//! grants and records every byte actually sent. The adapters are verified
//! against these, and the running system swaps in the real layer behind the
//! same event shapes.
use vstd::prelude::*;

use crate::classify::LowerError;

verus! {

/// One receive-direction event, as the read half observes it: a data frame
/// (with whether the stream ends right after it), the end of the stream, or
/// a lower-layer failure.
pub enum RecvEvent {
    Data { chunk: Vec<u8>, end_after: bool },
    End,
    Failed(LowerError),
}

/// The scripted receive side of one stream. `released` records, in order,
/// the flow-control credit releases the read half issued.
pub struct FakeRecvStream {
    pub events: Vec<RecvEvent>,
    pub pos: usize,
    pub released: Vec<usize>,
}

impl FakeRecvStream {
    /// A receive side that will replay `events`; a script that runs out
    /// behaves as an ended stream.
    pub fn new(events: Vec<RecvEvent>) -> (s: FakeRecvStream)
        ensures
            s.events@ == events@,
            s.pos == 0,
            s.released@ =~= Seq::<usize>::empty(),
    {
        FakeRecvStream { events, pos: 0, released: Vec::new() }
    }

    /// Releases `n` bytes of flow-control credit back to the peer; the fake
    /// records the release so ordering can be checked.
    pub fn release_capacity(&mut self, n: usize)
        ensures
            final(self).events@ == old(self).events@,
            final(self).pos == old(self).pos,
            final(self).released@ == old(self).released@.push(n),
    {
        self.released.push(n);
    }
}

/// One capacity answer from the send side: the stream is closed, some
/// capacity was granted, or the capacity wait failed.
pub enum CapacityEvent {
    Closed,
    Granted(usize),
    Failed(LowerError),
}

/// The scripted send side of one stream. `sent` records every byte handed
/// to the transport, in order; `ended` whether an end-of-stream frame was
/// sent. `send_error` scripts whether data frames are accepted, and `reset`
/// what polling the stream's reset reason yields.
pub struct FakeSendStream {
    pub capacity: Vec<CapacityEvent>,
    pub cap_pos: usize,
    pub reserved: usize,
    pub send_error: Option<LowerError>,
    pub reset: Result<u32, LowerError>,
    pub sent: Vec<u8>,
    pub ended: bool,
}

/// The capacity answer the send side gives next: a script that ran out
/// behaves as a closed stream, and a grant never exceeds the current
/// reservation — the multiplexed layer only grants what was asked for.
pub open spec fn next_capacity_spec(
    capacity: Seq<CapacityEvent>,
    cap_pos: int,
    reserved: usize,
) -> CapacityEvent {
    if cap_pos < 0 || cap_pos >= capacity.len() {
        CapacityEvent::Closed
    } else {
        match capacity[cap_pos] {
            CapacityEvent::Granted(g) => CapacityEvent::Granted(
                if g <= reserved {
                    g
                } else {
                    reserved
                },
            ),
            CapacityEvent::Closed => CapacityEvent::Closed,
            CapacityEvent::Failed(e) => CapacityEvent::Failed(e),
        }
    }
}

impl FakeSendStream {
    /// A send side that will answer capacity requests from `capacity`,
    /// accept or refuse data frames per `send_error`, and answer a reset
    /// poll with `reset`.
    pub fn new(
        capacity: Vec<CapacityEvent>,
        send_error: Option<LowerError>,
        reset: Result<u32, LowerError>,
    ) -> (s: FakeSendStream)
        ensures
            s.capacity@ == capacity@,
            s.cap_pos == 0,
            s.reserved == 0,
            s.send_error == send_error,
            s.reset == reset,
            s.sent@ =~= Seq::<u8>::empty(),
            s.ended == false,
    {
        FakeSendStream {
            capacity,
            cap_pos: 0,
            reserved: 0,
            send_error,
            reset,
            sent: Vec::new(),
            ended: false,
        }
    }

    /// Registers interest in `n` bytes of send capacity.
    pub fn reserve_capacity(&mut self, n: usize)
        ensures
            final(self).reserved == n,
            final(self).capacity@ == old(self).capacity@,
            final(self).cap_pos == old(self).cap_pos,
            final(self).send_error == old(self).send_error,
            final(self).reset == old(self).reset,
            final(self).sent@ == old(self).sent@,
            final(self).ended == old(self).ended,
    {
        self.reserved = n;
    }

    /// Waits for the next capacity answer; consumes one scripted event.
    pub fn poll_capacity(&mut self) -> (ev: CapacityEvent)
        ensures
            ev == next_capacity_spec(
                old(self).capacity@,
                old(self).cap_pos as int,
                old(self).reserved,
            ),
            final(self).cap_pos as int == if old(self).cap_pos < old(self).capacity@.len() {
                old(self).cap_pos as int + 1
            } else {
                old(self).cap_pos as int
            },
            final(self).capacity@ == old(self).capacity@,
            final(self).reserved == old(self).reserved,
            final(self).send_error == old(self).send_error,
            final(self).reset == old(self).reset,
            final(self).sent@ == old(self).sent@,
            final(self).ended == old(self).ended,
    {
        if self.cap_pos < self.capacity.len() {
            let i = self.cap_pos;
            self.cap_pos = i + 1;
            match &self.capacity[i] {
                CapacityEvent::Granted(g) => {
                    let granted = if *g <= self.reserved {
                        *g
                    } else {
                        self.reserved
                    };
                    CapacityEvent::Granted(granted)
                },
                CapacityEvent::Closed => CapacityEvent::Closed,
                CapacityEvent::Failed(e) => CapacityEvent::Failed(*e),
            }
        } else {
            CapacityEvent::Closed
        }
    }

    /// Sends one data frame, optionally marked end-of-stream. The scripted
    /// `send_error`, when present, refuses the frame without sending bytes.
    pub fn send_data(&mut self, chunk: &Vec<u8>, end_of_stream: bool) -> (r: Result<
        (),
        LowerError,
    >)
        ensures
            match old(self).send_error {
                None => r == Ok::<(), LowerError>(()) && final(self).sent@ == old(self).sent@
                    + chunk@ && final(self).ended == (old(self).ended || end_of_stream),
                Some(e) => r == Err::<(), LowerError>(e) && final(self).sent@ == old(self).sent@
                    && final(self).ended == old(self).ended,
            },
            final(self).capacity@ == old(self).capacity@,
            final(self).cap_pos == old(self).cap_pos,
            final(self).reserved == old(self).reserved,
            final(self).send_error == old(self).send_error,
            final(self).reset == old(self).reset,
    {
        match self.send_error {
            None => {
                crate::chunk::vec_append_prefix(&mut self.sent, chunk, chunk.len());
                proof {
                    assert(chunk@.subrange(0, chunk@.len() as int) =~= chunk@);
                }
                if end_of_stream {
                    self.ended = true;
                }
                Ok(())
            },
            Some(e) => Err(e),
        }
    }

    /// Waits for the stream's reset reason, the authoritative error after a
    /// failed write or shutdown.
    pub fn poll_reset(&self) -> (r: Result<u32, LowerError>)
        ensures
            r == self.reset,
    {
        self.reset
    }
}

} // verus!
