//! Delimiter-terminated frames: accumulation, validation and resynchronisation.

use vstd::prelude::*;
use crate::wire::{imu_at, le_word, read_imu, read_le_word, ImuState};

verus! {

/// Byte that ends every frame.
pub const FRAME_END: u8 = 255;

/// Byte that must stand just before [`FRAME_END`] in a frame worth decoding.
pub const FRAME_VALID: u8 = 254;

/// Length of a frame with twelve values and no timestamp.
pub const PLAIN_FRAME_BYTES: usize = 50;

/// Length of a frame with twelve values and a microsecond timestamp.
pub const STAMPED_FRAME_BYTES: usize = 54;

/// Longest run of bytes before a terminator that can still form a frame.
pub const MAX_PENDING: usize = 53;

/// Twelve values of two inertial units, with the device's timestamp if sent.
#[derive(Clone, Copy, Debug, PartialEq, Eq, Structural)]
pub struct RawSample {
    pub imu1: ImuState,
    pub imu2: ImuState,
    pub timestamp_us: Option<u32>,
}

/// A terminated frame `f` (terminator included) is decoded when its length is
/// one of the two accepted sizes and its validity marker is in place.
pub open spec fn frame_accepted(f: Seq<u8>) -> bool {
    &&& f.len() == PLAIN_FRAME_BYTES || f.len() == STAMPED_FRAME_BYTES
    &&& f[f.len() - 1] == FRAME_END
    &&& f[f.len() - 2] == FRAME_VALID
}

/// The values carried by an accepted frame.
pub open spec fn sample_of(f: Seq<u8>) -> RawSample {
    RawSample {
        imu1: imu_at(f, 0),
        imu2: imu_at(f, 24),
        timestamp_us: if f.len() == STAMPED_FRAME_BYTES { Some(le_word(f, 48)) } else { None },
    }
}

/// What a terminated frame yields: its sample, or nothing when it is discarded.
pub open spec fn frame_sample(f: Seq<u8>) -> Option<RawSample> {
    if frame_accepted(f) { Some(sample_of(f)) } else { None }
}

/// Zero or one sample, as a sequence.
pub open spec fn as_seq(o: Option<RawSample>) -> Seq<RawSample> {
    match o {
        Some(s) => seq![s],
        None => seq![],
    }
}

/// Bytes held after `s` arrives at a decoder that held `p`: all bytes since
/// the last terminator.
pub open spec fn pending_after(p: Seq<u8>, s: Seq<u8>) -> Seq<u8>
    decreases s.len(),
{
    if s.len() == 0 {
        p
    } else if s.last() == FRAME_END {
        seq![]
    } else {
        pending_after(p, s.drop_last()).push(s.last())
    }
}

/// Samples emitted while `s` arrives at a decoder that held `p`: one for each
/// terminator in `s` whose frame is accepted, in order.
pub open spec fn emitted(p: Seq<u8>, s: Seq<u8>) -> Seq<RawSample>
    decreases s.len(),
{
    if s.len() == 0 {
        seq![]
    } else if s.last() == FRAME_END {
        emitted(p, s.drop_last()) + as_seq(
            frame_sample(pending_after(p, s.drop_last()).push(FRAME_END)),
        )
    } else {
        emitted(p, s.drop_last())
    }
}

/// Feeding `a` and then `b` is feeding `a + b`.
proof fn lemma_feed_split(p: Seq<u8>, a: Seq<u8>, b: Seq<u8>)
    ensures
        pending_after(p, a + b) == pending_after(pending_after(p, a), b),
        emitted(p, a + b) == emitted(p, a) + emitted(pending_after(p, a), b),
    decreases b.len(),
{
    if b.len() == 0 {
        assert(a + b =~= a);
        assert(emitted(p, a) + seq![] =~= emitted(p, a));
    } else {
        lemma_feed_split(p, a, b.drop_last());
        assert((a + b).drop_last() =~= a + b.drop_last());
        assert((a + b).last() == b.last());
        let q = pending_after(p, a);
        if b.last() == FRAME_END {
            assert(emitted(p, a + b) =~= emitted(p, a) + emitted(q, b));
        }
    }
}

/// Bytes without a terminator are only accumulated.
proof fn lemma_feed_body(p: Seq<u8>, body: Seq<u8>)
    requires
        !body.contains(FRAME_END),
    ensures
        pending_after(p, body) == p + body,
        emitted(p, body) == Seq::<RawSample>::empty(),
    decreases body.len(),
{
    if body.len() == 0 {
        assert(p + body =~= p);
    } else {
        let init = body.drop_last();
        assert(body.contains(body.last()));
        assert forall|x: u8| init.contains(x) implies body.contains(x) by {
            let i = choose|i: int| 0 <= i < init.len() && init[i] == x;
            assert(body[i] == x);
        }
        lemma_feed_body(p, init);
        assert(p + body =~= (p + init).push(body.last()));
    }
}

/// Framing law: a terminated frame yields one sample exactly when its length is
/// one of the accepted sizes and its validity marker is 254, and nothing
/// otherwise; whatever it yields, the bytes after it are decoded as a fresh
/// decoder would decode them.
pub proof fn lemma_frame_then_resync(p: Seq<u8>, body: Seq<u8>, rest: Seq<u8>)
    requires
        !body.contains(FRAME_END),
    ensures
        ({
            let f = (p + body).push(FRAME_END);
            let accepted = (f.len() == PLAIN_FRAME_BYTES || f.len() == STAMPED_FRAME_BYTES)
                && f[f.len() - 2] == FRAME_VALID;
            emitted(p, body.push(FRAME_END) + rest) == if accepted {
                seq![sample_of(f)] + emitted(Seq::empty(), rest)
            } else {
                emitted(Seq::empty(), rest)
            }
        }),
        pending_after(p, body.push(FRAME_END) + rest) == pending_after(Seq::empty(), rest),
{
    let t = seq![FRAME_END];
    lemma_feed_body(p, body);
    lemma_feed_split(p, body, t);
    assert(body + t =~= body.push(FRAME_END));
    lemma_feed_split(p, body.push(FRAME_END), rest);
    reveal_with_fuel(pending_after, 2);
    reveal_with_fuel(emitted, 2);
    assert(t.drop_last() =~= Seq::<u8>::empty());
    let f = (p + body).push(FRAME_END);
    assert(emitted(p + body, t) =~= as_seq(frame_sample(f)));
    assert(emitted(p, body.push(FRAME_END)) =~= as_seq(frame_sample(f)));
    if !frame_accepted(f) {
        assert(as_seq(frame_sample(f)) + emitted(Seq::empty(), rest) =~= emitted(
            Seq::empty(),
            rest,
        ));
    }
}

/// Decodes one terminated frame, terminator included.
pub fn decode_frame(frame: &[u8]) -> (r: Option<RawSample>)
    ensures
        r == frame_sample(frame@),
{
    let n = frame.len();
    if n != PLAIN_FRAME_BYTES && n != STAMPED_FRAME_BYTES {
        return None;
    }
    if frame[n - 1] != FRAME_END || frame[n - 2] != FRAME_VALID {
        return None;
    }
    let timestamp_us = if n == STAMPED_FRAME_BYTES {
        Some(read_le_word(frame, 48))
    } else {
        None
    };
    Some(RawSample { imu1: read_imu(frame, 0), imu2: read_imu(frame, 24), timestamp_us })
}

/// Turns a byte stream into samples, one byte at a time.
pub struct FrameDecoder {
    buf: Vec<u8>,
    overrun: bool,
    pending: Ghost<Seq<u8>>,
}

impl View for FrameDecoder {
    type V = Seq<u8>;

    /// The bytes received since the last terminator.
    closed spec fn view(&self) -> Seq<u8> {
        self.pending@
    }
}

impl FrameDecoder {
    /// The buffer holds the pending bytes while they can still form a frame.
    pub closed spec fn wf(&self) -> bool {
        &&& !self.pending@.contains(FRAME_END)
        &&& self.overrun <==> self.pending@.len() > MAX_PENDING
        &&& !self.overrun ==> self.buf@ == self.pending@
    }

    pub fn new() -> (d: FrameDecoder)
        ensures
            d.wf(),
            d@ == Seq::<u8>::empty(),
    {
        FrameDecoder { buf: Vec::new(), overrun: false, pending: Ghost(Seq::empty()) }
    }

    /// Takes one byte; a terminator completes the pending frame, which is
    /// decoded or discarded, and the decoder starts afresh either way.
    pub fn push_byte(&mut self, b: u8) -> (r: Option<RawSample>)
        requires
            old(self).wf(),
        ensures
            final(self).wf(),
            final(self)@ == pending_after(old(self)@, seq![b]),
            r == if b == FRAME_END {
                frame_sample(old(self)@.push(FRAME_END))
            } else {
                None
            },
    {
        proof {
            reveal_with_fuel(pending_after, 2);
            assert(seq![b].drop_last() =~= Seq::<u8>::empty());
        }
        if b == FRAME_END {
            let r = if self.overrun {
                None
            } else {
                self.buf.push(FRAME_END);
                decode_frame(self.buf.as_slice())
            };
            self.buf.clear();
            self.overrun = false;
            self.pending = Ghost(Seq::empty());
            r
        } else {
            if self.overrun {
            } else if self.buf.len() < MAX_PENDING {
                self.buf.push(b);
            } else {
                self.buf.clear();
                self.overrun = true;
            }
            self.pending = Ghost(self.pending@.push(b));
            proof {
                assert forall|i: int| 0 <= i < self.pending@.len() implies self.pending@[i]
                    != FRAME_END by {
                    if i < self.pending@.len() - 1 {
                        assert(old(self).pending@.contains(old(self).pending@[i]));
                    }
                }
            }
            None
        }
    }

    /// Takes a run of bytes and returns the samples it completes, in order.
    pub fn feed(&mut self, bytes: &[u8]) -> (r: Vec<RawSample>)
        requires
            old(self).wf(),
        ensures
            final(self).wf(),
            final(self)@ == pending_after(old(self)@, bytes@),
            r@ == emitted(old(self)@, bytes@),
    {
        let mut out: Vec<RawSample> = Vec::new();
        let mut i: usize = 0;
        while i < bytes.len()
            invariant
                i <= bytes@.len(),
                self.wf(),
                self@ == pending_after(old(self)@, bytes@.take(i as int)),
                out@ == emitted(old(self)@, bytes@.take(i as int)),
            decreases bytes@.len() - i,
        {
            let ghost before = self@;
            let r = self.push_byte(bytes[i]);
            proof {
                let t = bytes@.take(i as int + 1);
                assert(t.drop_last() =~= bytes@.take(i as int));
                reveal_with_fuel(pending_after, 2);
                assert(seq![bytes@[i as int]].drop_last() =~= Seq::<u8>::empty());
            }
            if let Some(s) = r {
                out.push(s);
            }
            i += 1;
            proof {
                let t = bytes@.take(i as int);
                assert(t.last() == bytes@[i - 1]);
                assert(out@ =~= emitted(old(self)@, t));
            }
        }
        proof {
            assert(bytes@.take(bytes@.len() as int) =~= bytes@);
        }
        out
    }
}

} // verus!
