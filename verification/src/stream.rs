use vstd::prelude::*;

use vstd::arithmetic::div_mod::{lemma_div_is_ordered, lemma_div_multiples_vanish};

verus! {

/// One event on a session's delivery channel: a progress percentage, a
/// block of file bytes, or a terminal error message.
pub enum StreamEvent {
    Progress(i32),
    Chunk(Vec<u8>),
    Error(String),
}

/// The integer progress percentage after `sent` of `total` bytes:
/// `floor(sent / total * 100)`. A zero-size file has no meaningful ratio
/// and counts as fully transferred from the start.
pub open spec fn spec_percent(total: int, sent: int) -> int {
    if total == 0 {
        100
    } else {
        sent * 100 / total
    }
}

/// A percentage computed from a partial transfer lies within 0..=100.
pub proof fn lemma_percent_bounds(total: int, sent: int)
    requires
        0 <= sent <= total,
    ensures
        0 <= spec_percent(total, sent) <= 100,
{
    if total > 0 {
        assert(0 <= sent * 100 <= total * 100 && total * 100 == 100 * total) by (nonlinear_arith)
            requires
                0 <= sent <= total,
        ;
        lemma_div_is_ordered(0, sent * 100, total);
        lemma_div_is_ordered(sent * 100, 100 * total, total);
        lemma_div_multiples_vanish(100, total);
    }
}

/// The percentage never falls as the cumulative byte count grows.
pub proof fn lemma_percent_monotonic(total: int, sent1: int, sent2: int)
    requires
        0 <= sent1 <= sent2 <= total,
    ensures
        spec_percent(total, sent1) <= spec_percent(total, sent2),
{
    if total > 0 {
        assert(sent1 * 100 <= sent2 * 100) by (nonlinear_arith)
            requires
                0 <= sent1 <= sent2,
        ;
        lemma_div_is_ordered(sent1 * 100, sent2 * 100, total);
    }
}

/// Every element of the sequence is smaller than every later one.
pub open spec fn strictly_increasing(s: Seq<int>) -> bool {
    forall|i: int, j: int| 0 <= i < j < s.len() ==> s[i] < s[j]
}

/// The sum of a sequence of integers.
pub open spec fn sum_seq(s: Seq<int>) -> int
    decreases s.len(),
{
    if s.len() == 0 {
        0
    } else {
        sum_seq(s.drop_last()) + s.last()
    }
}

/// Computes the progress percentage reached after `sent` of `total` bytes.
pub fn percent(total: u64, sent: u64) -> (p: i32)
    requires
        sent <= total,
    ensures
        p as int == spec_percent(total as int, sent as int),
        0 <= p <= 100,
{
    proof {
        lemma_percent_bounds(total as int, sent as int);
    }
    if total == 0 {
        100
    } else {
        let q: u128 = (sent as u128) * 100 / (total as u128);
        q as i32
    }
}

/// The streaming side of one session: it accounts the blocks read from the
/// output file against the size captured once at open time, and decides
/// which events to put on the delivery channel. Progress is emitted only
/// when the percentage rises, so the emitted percentages are strictly
/// increasing; every block becomes a chunk event.
pub struct Streamer {
    /// Size of the output file, captured once when it was opened.
    pub total_size: u64,
    /// Cumulative bytes accounted so far.
    pub bytes_sent: u64,
    /// The last percentage emitted; starts below every valid percentage
    /// so the first block always emits one.
    pub last_progress: i32,
    /// The percentages emitted so far, in emission order.
    pub history: Ghost<Seq<int>>,
    /// The sizes of the chunks emitted so far, in emission order.
    pub chunks: Ghost<Seq<int>>,
}

impl Streamer {
    /// The invariant of a streaming session.
    pub open spec fn wf(self) -> bool {
        &&& self.bytes_sent <= self.total_size
        &&& strictly_increasing(self.history@)
        &&& (forall|i: int| 0 <= i < self.history@.len() ==> 0 <= #[trigger] self.history@[i] <= 100)
        &&& (if self.history@.len() == 0 {
            self.last_progress == -1
        } else {
            self.last_progress as int == self.history@.last()
        })
        &&& (self.history@.len() > 0 ==> self.history@.last() <= spec_percent(
            self.total_size as int,
            self.bytes_sent as int,
        ))
        &&& sum_seq(self.chunks@) == self.bytes_sent as int
    }

    /// Opens a streaming session over a file of the given size.
    pub fn new(total_size: u64) -> (s: Streamer)
        ensures
            s.wf(),
            s.total_size == total_size,
            s.bytes_sent == 0,
            s.last_progress == -1,
            s.history@ == Seq::<int>::empty(),
            s.chunks@ == Seq::<int>::empty(),
    {
        Streamer {
            total_size,
            bytes_sent: 0,
            last_progress: -1,
            history: Ghost(Seq::empty()),
            chunks: Ghost(Seq::empty()),
        }
    }

    /// Whether the cumulative byte count has reached the captured size.
    pub fn is_complete(&self) -> (r: bool)
        ensures
            r == (self.bytes_sent == self.total_size),
    {
        self.bytes_sent == self.total_size
    }

    /// Accounts one non-empty block read from the output file and returns
    /// the events to deliver for it: a progress event first when the
    /// percentage rose, then always the chunk itself.
    pub fn on_chunk(&mut self, data: Vec<u8>) -> (events: Vec<StreamEvent>)
        requires
            old(self).wf(),
            data@.len() > 0,
            old(self).bytes_sent + data@.len() <= old(self).total_size,
        ensures
            final(self).wf(),
            final(self).total_size == old(self).total_size,
            final(self).bytes_sent == old(self).bytes_sent + data@.len(),
            final(self).chunks@ == old(self).chunks@.push(data@.len() as int),
            ({
                let p = spec_percent(
                    old(self).total_size as int,
                    old(self).bytes_sent + data@.len(),
                );
                if p > old(self).last_progress as int {
                    &&& events@.len() == 2
                    &&& (events@[0] matches StreamEvent::Progress(q) && q as int == p)
                    &&& (events@[1] matches StreamEvent::Chunk(d) && d@ == data@)
                    &&& final(self).history@ == old(self).history@.push(p)
                    &&& final(self).last_progress as int == p
                } else {
                    &&& events@.len() == 1
                    &&& (events@[0] matches StreamEvent::Chunk(d) && d@ == data@)
                    &&& final(self).history@ == old(self).history@
                    &&& final(self).last_progress == old(self).last_progress
                }
            }),
    {
        let add: u64 = data.len() as u64;
        let new_sent: u64 = self.bytes_sent + add;
        let p: i32 = percent(self.total_size, new_sent);
        proof {
            lemma_percent_monotonic(
                self.total_size as int,
                self.bytes_sent as int,
                new_sent as int,
            );
        }
        let mut events: Vec<StreamEvent> = Vec::new();
        if p > self.last_progress {
            events.push(StreamEvent::Progress(p));
            proof {
                assert forall|i: int| 0 <= i < self.history@.len() implies #[trigger] self.history@[i]
                    < p as int by {
                    if i < self.history@.len() - 1 {
                        assert(self.history@[i] < self.history@.last());
                    }
                }
            }
            self.last_progress = p;
            self.history = Ghost(self.history@.push(p as int));
        }
        self.bytes_sent = new_sent;
        self.chunks = Ghost(self.chunks@.push(add as int));
        proof {
            assert(self.chunks@.drop_last() =~= old(self).chunks@);
        }
        events.push(StreamEvent::Chunk(data));
        events
    }
}

/// Law: the progress percentages a session has emitted form a strictly
/// increasing sequence, each within 0..=100.
pub proof fn lemma_progress_strictly_increasing(s: Streamer)
    requires
        s.wf(),
    ensures
        forall|i: int, j: int| 0 <= i < j < s.history@.len() ==> s.history@[i] < s.history@[j],
        forall|i: int| 0 <= i < s.history@.len() ==> 0 <= #[trigger] s.history@[i] <= 100,
{
}

/// Law: when a session has streamed the whole file — the cumulative byte
/// count reached the size captured at open time — the chunk sizes it
/// emitted add up to exactly that size.
pub proof fn lemma_complete_stream_bytes(s: Streamer)
    requires
        s.wf(),
        s.bytes_sent == s.total_size,
    ensures
        sum_seq(s.chunks@) == s.total_size as int,
{
}

} // verus!
