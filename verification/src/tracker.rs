//! Half-close tracking: a pair of tokens minted per logical stream, one for
//! each direction, that decrement a connection-wide active-stream counter
//! exactly once, at the moment the second of the two halves is released.
//!
//! The running system shares the marker and the counter between two tasks
//! through atomically reference-counted cells; here the shared marker and
//! counter are explicit values handed to `release`, so the detection rule
//! itself — only the release that finds the sibling already gone decrements —
//! is what is stated and proved.
use vstd::prelude::*;

verus! {

/// One half-close token; its sibling is minted together with it.
pub struct DropCounter {
    released: bool,
}

/// The marker shared by the two tokens of one stream: remembers how many of
/// them have been released so far.
pub struct HalfDropMarker {
    released_halves: u8,
}

impl HalfDropMarker {
    /// How many of the pair's tokens have been released (0, 1 or 2).
    pub closed spec fn releases(self) -> int {
        self.released_halves as int
    }
}

/// Whether a release that finds this many prior releases of the pair is the
/// second one, the one that must decrement the shared counter.
pub open spec fn second_release_fires(prior_releases: int) -> bool {
    prior_releases == 1
}

/// The counter value after a release that found this many prior releases.
pub open spec fn count_after_release(prior_releases: int, count: int) -> int {
    if second_release_fires(prior_releases) {
        count - 1
    } else {
        count
    }
}

impl DropCounter {
    /// Whether this token has already been released.
    pub closed spec fn is_released(self) -> bool {
        self.released
    }

    /// Mints the two tokens of one logical stream together with their shared
    /// marker. The counter is not incremented here: incrementing happens when
    /// the stream is admitted, outside this component; the pair only ever
    /// decrements.
    pub fn new() -> (r: (DropCounter, DropCounter, HalfDropMarker))
        ensures
            !r.0.is_released(),
            !r.1.is_released(),
            r.2.releases() == 0,
    {
        (
            DropCounter { released: false },
            DropCounter { released: false },
            HalfDropMarker { released_halves: 0 },
        )
    }

    /// Releases this token: records the release on the shared marker and, if
    /// the sibling token was already released, decrements the active-stream
    /// counter — the second release, and only the second, fires.
    pub fn release(&mut self, marker: &mut HalfDropMarker, active_count: &mut u16) -> (decremented:
        bool)
        requires
            !old(self).is_released(),
            old(marker).releases() < 2,
            second_release_fires(old(marker).releases()) ==> *old(active_count) >= 1,
        ensures
            final(self).is_released(),
            final(marker).releases() == old(marker).releases() + 1,
            decremented == second_release_fires(old(marker).releases()),
            *final(active_count) as int == count_after_release(
                old(marker).releases(),
                *old(active_count) as int,
            ),
    {
        self.released = true;
        let prior = marker.released_halves;
        marker.released_halves = prior + 1;
        if prior == 1 {
            *active_count = *active_count - 1;
            true
        } else {
            false
        }
    }
}

/// Law: releasing the two halves of one stream, in whichever order and from
/// whichever task, decrements the shared counter exactly once — the first
/// release leaves the counter untouched and the second lowers it by one, so
/// the net effect of both is a single decrement, never zero, never two.
pub proof fn lemma_half_close_exactly_once(count: int)
    ensures
        !second_release_fires(0),
        count_after_release(0, count) == count,
        second_release_fires(1),
        count_after_release(1, count_after_release(0, count)) == count - 1,
{
}

/// The liveness of the two halves of one logical stream.
#[derive(Clone, Copy, Debug)]
pub struct StreamPair {
    pub read_live: bool,
    pub write_live: bool,
}

/// A stream still holds the counter as long as at least one half is live.
pub open spec fn pair_live(p: StreamPair) -> bool {
    p.read_live || p.write_live
}

/// The number of streams with at least one live half.
pub open spec fn live_count(s: Seq<StreamPair>) -> int
    decreases s.len(),
{
    if s.len() == 0 {
        0
    } else {
        live_count(s.drop_last()) + if pair_live(s.last()) {
            1int
        } else {
            0int
        }
    }
}

pub proof fn lemma_live_count_nonneg(s: Seq<StreamPair>)
    ensures
        live_count(s) >= 0,
    decreases s.len(),
{
    if s.len() > 0 {
        lemma_live_count_nonneg(s.drop_last());
    }
}

pub proof fn lemma_live_count_push(s: Seq<StreamPair>, p: StreamPair)
    ensures
        live_count(s.push(p)) == live_count(s) + if pair_live(p) {
            1int
        } else {
            0int
        },
{
    assert(s.push(p).drop_last() =~= s);
    assert(s.push(p).last() == p);
}

pub proof fn lemma_live_count_update(s: Seq<StreamPair>, i: int, p: StreamPair)
    requires
        0 <= i < s.len(),
    ensures
        live_count(s.update(i, p)) == live_count(s) - (if pair_live(s[i]) {
            1int
        } else {
            0int
        }) + (if pair_live(p) {
            1int
        } else {
            0int
        }),
    decreases s.len(),
{
    if i == s.len() - 1 {
        assert(s.update(i, p).drop_last() =~= s.drop_last());
        assert(s.update(i, p).last() == p);
    } else {
        assert(s.update(i, p).drop_last() =~= s.drop_last().update(i, p));
        assert(s.update(i, p).last() == s.last());
        lemma_live_count_update(s.drop_last(), i, p);
    }
}

/// A connection's active-stream bookkeeping: the shared counter together
/// with the half-liveness of every stream carved out of the connection.
pub struct ConnectionStreams {
    active: u16,
    streams: Vec<StreamPair>,
}

impl ConnectionStreams {
    /// The counter's current value.
    pub closed spec fn active_streams(self) -> int {
        self.active as int
    }

    /// The half-liveness of each stream, in admission order.
    pub closed spec fn pairs(self) -> Seq<StreamPair> {
        self.streams@
    }

    /// The counter equals the number of streams with at least one live half.
    pub open spec fn wf(self) -> bool {
        self.active_streams() == live_count(self.pairs())
    }

    /// A connection with no streams yet.
    pub fn new() -> (c: ConnectionStreams)
        ensures
            c.wf(),
            c.active_streams() == 0,
            c.pairs() =~= Seq::<StreamPair>::empty(),
    {
        ConnectionStreams { active: 0, streams: Vec::new() }
    }

    /// Reads the counter, the value the pooling layer observes to decide
    /// connection reuse and eviction.
    pub fn active_count(&self) -> (n: u16)
        ensures
            n as int == self.active_streams(),
    {
        self.active
    }

    /// Admits a new logical stream: both halves live, counter incremented.
    pub fn open_stream(&mut self) -> (idx: usize)
        requires
            old(self).wf(),
            old(self).active_streams() < 65535,
        ensures
            final(self).wf(),
            final(self).active_streams() == old(self).active_streams() + 1,
            final(self).pairs() =~= apply_event(old(self).pairs(), StreamEvent::Open),
            final(self).active_streams() == count_after_event(
                old(self).pairs(),
                old(self).active_streams(),
                StreamEvent::Open,
            ),
            idx == old(self).pairs().len(),
    {
        let idx = self.streams.len();
        let p = StreamPair { read_live: true, write_live: true };
        self.streams.push(p);
        proof {
            lemma_live_count_push(old(self).pairs(), p);
        }
        self.active = self.active + 1;
        idx
    }

    /// Releases the read half of stream `i`; decrements the counter exactly
    /// when the write half is already gone.
    pub fn release_read_half(&mut self, i: usize) -> (decremented: bool)
        requires
            old(self).wf(),
            i < old(self).pairs().len(),
            old(self).pairs()[i as int].read_live,
        ensures
            final(self).wf(),
            decremented == !old(self).pairs()[i as int].write_live,
            final(self).pairs() =~= apply_event(
                old(self).pairs(),
                StreamEvent::ReleaseRead(i as int),
            ),
            final(self).active_streams() == count_after_event(
                old(self).pairs(),
                old(self).active_streams(),
                StreamEvent::ReleaseRead(i as int),
            ),
    {
        let p = self.streams[i];
        let np = StreamPair { read_live: false, write_live: p.write_live };
        self.streams.set(i, np);
        proof {
            lemma_live_count_update(old(self).pairs(), i as int, np);
            lemma_live_count_nonneg(self.streams@);
        }
        if !p.write_live {
            self.active = self.active - 1;
            true
        } else {
            false
        }
    }

    /// Releases the write half of stream `i`; decrements the counter exactly
    /// when the read half is already gone.
    pub fn release_write_half(&mut self, i: usize) -> (decremented: bool)
        requires
            old(self).wf(),
            i < old(self).pairs().len(),
            old(self).pairs()[i as int].write_live,
        ensures
            final(self).wf(),
            decremented == !old(self).pairs()[i as int].read_live,
            final(self).pairs() =~= apply_event(
                old(self).pairs(),
                StreamEvent::ReleaseWrite(i as int),
            ),
            final(self).active_streams() == count_after_event(
                old(self).pairs(),
                old(self).active_streams(),
                StreamEvent::ReleaseWrite(i as int),
            ),
    {
        let p = self.streams[i];
        let np = StreamPair { read_live: p.read_live, write_live: false };
        self.streams.set(i, np);
        proof {
            lemma_live_count_update(old(self).pairs(), i as int, np);
            lemma_live_count_nonneg(self.streams@);
        }
        if !p.read_live {
            self.active = self.active - 1;
            true
        } else {
            false
        }
    }
}

/// One bookkeeping event, in the abstract: admitting a stream, or releasing
/// one half of stream `i`. An event that names a stream out of range or a
/// half already released leaves the state unchanged — such an event cannot
/// arise, each half is released at most once.
pub enum StreamEvent {
    Open,
    ReleaseRead(int),
    ReleaseWrite(int),
}

/// The half-liveness table after one event.
pub open spec fn apply_event(s: Seq<StreamPair>, ev: StreamEvent) -> Seq<StreamPair> {
    match ev {
        StreamEvent::Open => s.push(StreamPair { read_live: true, write_live: true }),
        StreamEvent::ReleaseRead(i) => if 0 <= i < s.len() && s[i].read_live {
            s.update(i, StreamPair { read_live: false, write_live: s[i].write_live })
        } else {
            s
        },
        StreamEvent::ReleaseWrite(i) => if 0 <= i < s.len() && s[i].write_live {
            s.update(i, StreamPair { read_live: s[i].read_live, write_live: false })
        } else {
            s
        },
    }
}

/// The counter after one event: an admission increments, and a release
/// decrements exactly when it is the second of its stream's two.
pub open spec fn count_after_event(s: Seq<StreamPair>, c: int, ev: StreamEvent) -> int {
    match ev {
        StreamEvent::Open => c + 1,
        StreamEvent::ReleaseRead(i) => if 0 <= i < s.len() && s[i].read_live && !s[i].write_live {
            c - 1
        } else {
            c
        },
        StreamEvent::ReleaseWrite(i) => if 0 <= i < s.len() && s[i].write_live && !s[i].read_live {
            c - 1
        } else {
            c
        },
    }
}

/// The half-liveness table after a sequence of events.
pub open spec fn apply_events(s: Seq<StreamPair>, evs: Seq<StreamEvent>) -> Seq<StreamPair>
    decreases evs.len(),
{
    if evs.len() == 0 {
        s
    } else {
        apply_events(apply_event(s, evs[0]), evs.drop_first())
    }
}

/// The counter after a sequence of events.
pub open spec fn run_count(s: Seq<StreamPair>, c: int, evs: Seq<StreamEvent>) -> int
    decreases evs.len(),
{
    if evs.len() == 0 {
        c
    } else {
        run_count(apply_event(s, evs[0]), count_after_event(s, c, evs[0]), evs.drop_first())
    }
}

/// A counter that matches the live-stream count keeps matching it through
/// any sequence of events.
pub proof fn lemma_counter_invariant(s: Seq<StreamPair>, c: int, evs: Seq<StreamEvent>)
    requires
        c == live_count(s),
    ensures
        run_count(s, c, evs) == live_count(apply_events(s, evs)),
    decreases evs.len(),
{
    if evs.len() > 0 {
        let ev = evs[0];
        match ev {
            StreamEvent::Open => {
                lemma_live_count_push(s, StreamPair { read_live: true, write_live: true });
            },
            StreamEvent::ReleaseRead(i) => {
                if 0 <= i < s.len() && s[i].read_live {
                    lemma_live_count_update(
                        s,
                        i,
                        StreamPair { read_live: false, write_live: s[i].write_live },
                    );
                }
            },
            StreamEvent::ReleaseWrite(i) => {
                if 0 <= i < s.len() && s[i].write_live {
                    lemma_live_count_update(
                        s,
                        i,
                        StreamPair { read_live: s[i].read_live, write_live: false },
                    );
                }
            },
        }
        lemma_counter_invariant(
            apply_event(s, ev),
            count_after_event(s, c, ev),
            evs.drop_first(),
        );
    }
}

/// Law: for any sequence of stream admissions and half releases, starting
/// from a connection with no streams, the active-stream count always equals
/// the number of streams with at least one half still live and never goes
/// below zero. `open_stream`, `release_read_half` and `release_write_half`
/// realize exactly these transitions, so every reachable
/// `ConnectionStreams` state satisfies the same equation.
pub proof fn lemma_counter_matches_live_streams(evs: Seq<StreamEvent>)
    ensures
        run_count(Seq::<StreamPair>::empty(), 0, evs) == live_count(
            apply_events(Seq::<StreamPair>::empty(), evs),
        ),
        run_count(Seq::<StreamPair>::empty(), 0, evs) >= 0,
{
    lemma_counter_invariant(Seq::<StreamPair>::empty(), 0, evs);
    lemma_live_count_nonneg(apply_events(Seq::<StreamPair>::empty(), evs));
}

} // verus!
