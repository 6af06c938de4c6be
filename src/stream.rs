//! The decoder over a whole stream: what a driver that calls `decode` until
//! it yields nothing collects, and the laws that hold of it.
use vstd::prelude::*;

use crate::codec::{
    accepted_stx, claimed_size, crc_of, decode_outcome, extra_crc_entry, frame_error, frame_step,
    header_need, CodecConfig, FrameStep,
};
use crate::{frame_checksum, frame_checksum_input, frame_message_id};
use crate::error::DecoderError;
use crate::v1::{self, V1_STX};
use crate::v2;

verus! {

/// One item of the decoded stream: a frame's bytes, or an error.
pub type Item = Result<Seq<u8>, DecoderError>;

/// Calls `decode` on a buffer holding `s` until it yields nothing: the items
/// yielded, in order, and the bytes left buffered.
pub open spec fn drain(cfg: CodecConfig, s: Seq<u8>) -> (Seq<Item>, Seq<u8>)
    decreases s.len(),
{
    let (k, out) = decode_outcome(cfg, s);
    match out {
        None => (seq![], s.skip(k as int)),
        Some(x) => if 0 < k <= s.len() {
            let r = drain(cfg, s.skip(k as int));
            (seq![x] + r.0, r.1)
        } else {
            (seq![], s)
        },
    }
}

/// Feeds `chunks` one after the other to a buffer that holds `pending`,
/// draining the decoder after each: the items yielded, in order.
pub open spec fn feed(cfg: CodecConfig, pending: Seq<u8>, chunks: Seq<Seq<u8>>) -> Seq<Item>
    decreases chunks.len(),
{
    if chunks.len() == 0 {
        seq![]
    } else {
        let d = drain(cfg, pending + chunks[0]);
        d.0 + feed(cfg, d.1, chunks.drop_first())
    }
}

/// `f` is one complete frame of an accepted version that passes every check.
pub open spec fn frame_passes(cfg: CodecConfig, f: Seq<u8>) -> bool {
    &&& f.len() > 0
    &&& accepted_stx(cfg, f[0])
    &&& if f[0] == V1_STX { v1::is_frame(f) } else { v2::is_frame(f) }
    &&& frame_error(cfg, f).is_none()
}

/// The number of bytes at the front of `s` that open no accepted frame.
pub open spec fn leading_skips(cfg: CodecConfig, s: Seq<u8>) -> nat
    decreases s.len(),
{
    if s.len() > 0 && !accepted_stx(cfg, s[0]) {
        1 + leading_skips(cfg, s.drop_first())
    } else {
        0
    }
}

/// A decision on a buffer stands when more bytes arrive behind it.
pub proof fn lemma_step_extend(cfg: CodecConfig, s: Seq<u8>, t: Seq<u8>)
    requires
        frame_step(cfg, s) != FrameStep::NeedsMore,
    ensures
        frame_step(cfg, s + t) == frame_step(cfg, s),
        frame_step(cfg, s) matches FrameStep::Accept(n) ==> 0 < n <= s.len(),
{
    let st = s + t;
    assert(st[0] == s[0]);
    if accepted_stx(cfg, s[0]) {
        assert(st[1] == s[1]);
        assert(st[2] == s[2]);
        assert(claimed_size(st) == claimed_size(s));
        assert(st.take(claimed_size(s)) =~= s.take(claimed_size(s)));
    }
}

/// What one call of `decode` consumes stays within the buffer, and a call
/// that yields an item consumes at least one byte.
pub proof fn lemma_outcome_bounds(cfg: CodecConfig, s: Seq<u8>)
    ensures
        decode_outcome(cfg, s).0 <= s.len(),
        decode_outcome(cfg, s).1.is_some() ==> decode_outcome(cfg, s).0 > 0,
        decode_outcome(cfg, s).1.is_none() ==> frame_step(
            cfg,
            s.skip(decode_outcome(cfg, s).0 as int),
        ) == FrameStep::NeedsMore,
    decreases s.len(),
{
    match frame_step(cfg, s) {
        FrameStep::NeedsMore => {
            assert(s.skip(0) =~= s);
        },
        FrameStep::Skip => {
            lemma_outcome_bounds(cfg, s.drop_first());
            let k = decode_outcome(cfg, s.drop_first()).0;
            assert(s.drop_first().skip(k as int) =~= s.skip(k + 1 as int));
        },
        FrameStep::Reject(_) => {},
        FrameStep::Accept(n) => {
            lemma_step_extend(cfg, s, seq![]);
        },
    }
}

/// One call of `decode` on a buffer that has grown by `t`: a call that
/// yielded an item yields the same one; a call that yielded nothing goes on
/// from where it stopped.
pub proof fn lemma_outcome_extend(cfg: CodecConfig, s: Seq<u8>, t: Seq<u8>)
    ensures
        ({
            let (k, out) = decode_outcome(cfg, s);
            let o2 = decode_outcome(cfg, s.skip(k as int) + t);
            &&& out.is_some() ==> decode_outcome(cfg, s + t) == (k, out)
            &&& out.is_none() ==> decode_outcome(cfg, s + t) == (k + o2.0, o2.1)
        }),
    decreases s.len(),
{
    lemma_outcome_bounds(cfg, s);
    match frame_step(cfg, s) {
        FrameStep::NeedsMore => {
            assert(s.skip(0) + t =~= s + t);
        },
        FrameStep::Skip => {
            lemma_step_extend(cfg, s, t);
            let r = s.drop_first();
            lemma_outcome_extend(cfg, r, t);
            assert((s + t).drop_first() =~= r + t);
            let k = decode_outcome(cfg, r).0;
            assert(s.skip(k + 1 as int) =~= r.skip(k as int));
        },
        _ => {
            lemma_step_extend(cfg, s, t);
            if let FrameStep::Accept(n) = frame_step(cfg, s) {
                assert((s + t).take(n as int) =~= s.take(n as int));
            }
        },
    }
}

/// Draining a buffer that has grown by `t` yields what draining the shorter
/// buffer yielded, then what draining its leftover followed by `t` yields.
pub proof fn lemma_drain_extend(cfg: CodecConfig, s: Seq<u8>, t: Seq<u8>)
    ensures
        drain(cfg, s + t).0 == drain(cfg, s).0 + drain(cfg, drain(cfg, s).1 + t).0,
        drain(cfg, s + t).1 == drain(cfg, drain(cfg, s).1 + t).1,
    decreases s.len(),
{
    lemma_outcome_bounds(cfg, s);
    lemma_outcome_extend(cfg, s, t);
    let (k, out) = decode_outcome(cfg, s);
    let st = s + t;
    match out {
        None => {
            let u = s.skip(k as int) + t;
            let o2 = decode_outcome(cfg, u);
            lemma_outcome_bounds(cfg, u);
            assert(st.skip(k + o2.0 as int) =~= u.skip(o2.0 as int));
            assert(drain(cfg, s).0 =~= seq![]);
            assert(drain(cfg, s).0 + drain(cfg, u).0 =~= drain(cfg, u).0);
        },
        Some(x) => {
            let r = s.skip(k as int);
            lemma_drain_extend(cfg, r, t);
            assert(st.skip(k as int) =~= r + t);
            assert(seq![x] + drain(cfg, r).0 + drain(cfg, drain(cfg, r).1 + t).0 =~= seq![x] + (
            drain(cfg, r).0 + drain(cfg, drain(cfg, r).1 + t).0));
        },
    }
}

/// What draining leaves behind yields nothing more until bytes arrive.
pub proof fn lemma_drain_leftover(cfg: CodecConfig, s: Seq<u8>)
    ensures
        drain(cfg, drain(cfg, s).1).0.len() == 0,
    decreases s.len(),
{
    lemma_outcome_bounds(cfg, s);
    let (k, out) = decode_outcome(cfg, s);
    match out {
        None => {
            let l = s.skip(k as int);
            assert(decode_outcome(cfg, l) == (0nat, None::<Item>));
        },
        Some(_) => {
            lemma_drain_leftover(cfg, s.skip(k as int));
        },
    }
}

/// Chunk invariance: feeding a stream in chunks, draining the decoder after
/// each, yields the same items as draining the whole stream at once.
pub proof fn lemma_chunk_invariance(cfg: CodecConfig, chunks: Seq<Seq<u8>>)
    ensures
        feed(cfg, seq![], chunks) == drain(cfg, chunks.flatten()).0,
{
    lemma_feed_pending(cfg, seq![], chunks);
    assert(seq![] + chunks.flatten() =~= chunks.flatten());
}

proof fn lemma_feed_pending(cfg: CodecConfig, p: Seq<u8>, chunks: Seq<Seq<u8>>)
    requires
        drain(cfg, p).0.len() == 0,
    ensures
        feed(cfg, p, chunks) == drain(cfg, p + chunks.flatten()).0,
    decreases chunks.len(),
{
    if chunks.len() == 0 {
        assert(p + chunks.flatten() =~= p);
        assert(feed(cfg, p, chunks) =~= drain(cfg, p).0);
    } else {
        let c = chunks[0];
        let rest = chunks.drop_first();
        let d = drain(cfg, p + c);
        lemma_drain_leftover(cfg, p + c);
        lemma_feed_pending(cfg, d.1, rest);
        lemma_drain_extend(cfg, p + c, rest.flatten());
        assert(p + chunks.flatten() =~= (p + c) + rest.flatten());
    }
}

/// A frame that passes every check is accepted whole, whatever follows it.
pub proof fn lemma_frame_accepted(cfg: CodecConfig, f: Seq<u8>, rest: Seq<u8>)
    requires
        frame_passes(cfg, f),
    ensures
        frame_step(cfg, f + rest) == FrameStep::Accept(f.len()),
        decode_outcome(cfg, f + rest) == (f.len(), Some(Ok::<Seq<u8>, DecoderError>(f))),
{
    assert(f.take(f.len() as int) =~= f);
    assert(frame_step(cfg, f) == FrameStep::Accept(f.len()));
    lemma_step_extend(cfg, f, rest);
    assert((f + rest).take(f.len() as int) =~= f);
}

/// Resynchronisation: bytes that open no accepted frame are dropped
/// silently, and the well-formed frame behind them is yielded whole, after
/// `|g| + |f|` bytes.
pub proof fn lemma_resync(cfg: CodecConfig, g: Seq<u8>, f: Seq<u8>, rest: Seq<u8>)
    requires
        forall|i: int| 0 <= i < g.len() ==> !accepted_stx(cfg, #[trigger] g[i]),
        frame_passes(cfg, f),
    ensures
        decode_outcome(cfg, g + f + rest) == (g.len() + f.len(), Some(Ok::<Seq<u8>, DecoderError>(f))),
    decreases g.len(),
{
    if g.len() == 0 {
        assert(g + f + rest =~= f + rest);
        lemma_frame_accepted(cfg, f, rest);
    } else {
        let s = g + f + rest;
        assert(s[0] == g[0]);
        assert(s.drop_first() =~= g.drop_first() + f + rest);
        lemma_resync(cfg, g.drop_first(), f, rest);
    }
}

/// Every byte that one call of `decode` consumes is accounted for: first
/// come bytes that open no accepted frame, dropped silently; then either
/// nothing more (no item), the single STX byte of a rejected frame (an
/// error), or exactly the bytes of the yielded frame.
pub proof fn lemma_consumed_bytes(cfg: CodecConfig, s: Seq<u8>)
    ensures
        ({
            let (k, out) = decode_outcome(cfg, s);
            let d = leading_skips(cfg, s);
            &&& d <= k
            &&& forall|i: int| 0 <= i < d ==> !accepted_stx(cfg, #[trigger] s[i])
            &&& out.is_none() ==> k == d
            &&& out matches Some(Err(_)) ==> k == d + 1 && accepted_stx(cfg, s[d as int])
            &&& out matches Some(Ok(f)) ==> s.subrange(d as int, k as int) == f && k == d + f.len()
        }),
    decreases s.len(),
{
    lemma_outcome_bounds(cfg, s);
    match frame_step(cfg, s) {
        FrameStep::Skip => {
            let r = s.drop_first();
            lemma_consumed_bytes(cfg, r);
            let (k, out) = decode_outcome(cfg, r);
            let d = leading_skips(cfg, r);
            assert forall|i: int| 0 <= i < d + 1 implies !accepted_stx(cfg, #[trigger] s[i]) by {
                if i > 0 {
                    assert(s[i] == r[i - 1]);
                }
            }
            if let Some(Ok(f)) = out {
                assert(s.subrange(d + 1 as int, k + 1 as int) =~= r.subrange(d as int, k as int));
            }
        },
        FrameStep::Accept(n) => {
            assert(s.subrange(0, n as int) =~= s.take(n as int));
        },
        _ => {},
    }
}

/// Skipping checksum validation accepts every frame the checking decoder
/// accepts, and still only frames whose length agrees with their LEN byte.
pub proof fn lemma_skip_crc_accepts_more(cfg: CodecConfig, s: Seq<u8>)
    ensures
        ({
            let lax = CodecConfig { skip_crc_validation: true, ..cfg };
            &&& frame_step(cfg, s) matches FrameStep::Accept(n) ==> frame_step(lax, s) == FrameStep::Accept(n)
            &&& frame_step(lax, s) matches FrameStep::Accept(n) ==> {
                &&& n == claimed_size(s)
                &&& s.len() >= header_need(s)
                &&& if s[0] == V1_STX {
                    v1::is_frame(s.take(n as int))
                } else {
                    v2::is_frame(s.take(n as int))
                }
            }
        }),
{
}

/// At the front of `s` the decoder either drops a byte silently or rejects
/// the frame that byte opens: it neither accepts a frame nor waits there.
pub open spec fn drops_or_rejects(cfg: CodecConfig, s: Seq<u8>) -> bool {
    frame_step(cfg, s) matches FrameStep::Skip || frame_step(cfg, s) matches FrameStep::Reject(_)
}

/// Draining past a byte that is dropped silently yields what draining the
/// rest yields.
pub proof fn lemma_drain_skip(cfg: CodecConfig, s: Seq<u8>)
    requires
        s.len() > 0,
        frame_step(cfg, s) == FrameStep::Skip,
    ensures
        drain(cfg, s) == drain(cfg, s.drop_first()),
{
    let r = s.drop_first();
    lemma_outcome_bounds(cfg, r);
    let (k, out) = decode_outcome(cfg, r);
    assert(r.skip(k as int) =~= s.skip(k + 1 as int));
}

/// Resynchronisation after injected bytes: when no byte of `g` opens a frame
/// that is accepted or waited for, the decoder yields at most `|g|` errors,
/// then the well-formed frame `f`, then what `rest` alone yields.
pub proof fn lemma_resync_with_errors(cfg: CodecConfig, g: Seq<u8>, f: Seq<u8>, rest: Seq<u8>)
    requires
        forall|i: int| 0 <= i < g.len() ==> drops_or_rejects(cfg, #[trigger] (g + f + rest).skip(i)),
        frame_passes(cfg, f),
    ensures
        ({
            let items = drain(cfg, g + f + rest).0;
            let m = items.len() - drain(cfg, rest).0.len() - 1;
            &&& 0 <= m <= g.len()
            &&& items[m] == Ok::<Seq<u8>, DecoderError>(f)
            &&& forall|j: int| 0 <= j < m ==> (#[trigger] items[j]).is_err()
            &&& items.skip(m + 1) == drain(cfg, rest).0
        }),
    decreases g.len(),
{
    let s = g + f + rest;
    if g.len() == 0 {
        assert(s =~= f + rest);
        lemma_frame_accepted(cfg, f, rest);
        assert(s.skip(f.len() as int) =~= rest);
        let items = drain(cfg, s).0;
        assert(items =~= seq![Ok::<Seq<u8>, DecoderError>(f)] + drain(cfg, rest).0);
        assert(items.skip(1) =~= drain(cfg, rest).0);
    } else {
        let g2 = g.drop_first();
        let s2 = g2 + f + rest;
        assert(s.drop_first() =~= s2);
        assert forall|i: int| 0 <= i < g2.len() implies drops_or_rejects(cfg, #[trigger] (g2 + f + rest).skip(i)) by {
            assert((g2 + f + rest).skip(i) =~= (g + f + rest).skip(i + 1));
        }
        lemma_resync_with_errors(cfg, g2, f, rest);
        assert(s.skip(0) =~= s);
        let items2 = drain(cfg, s2).0;
        let m2 = items2.len() - drain(cfg, rest).0.len() - 1;
        if frame_step(cfg, s) == FrameStep::Skip {
            lemma_drain_skip(cfg, s);
        } else {
            let e = frame_step(cfg, s)->Reject_0;
            assert(decode_outcome(cfg, s) == (1nat, Some(Err::<Seq<u8>, DecoderError>(e))));
            assert(s.skip(1) =~= s2);
            let items = drain(cfg, s).0;
            assert(items =~= seq![Err::<Seq<u8>, DecoderError>(e)] + items2);
            assert forall|j: int| 0 <= j < m2 + 1 implies (#[trigger] items[j]).is_err() by {
                if j > 0 {
                    assert(items[j] == items2[j - 1]);
                }
            }
            assert(items.skip(m2 + 2) =~= items2.skip(m2 + 1));
        }
    }
}

/// What the decoder accepts is one frame: it opens with an accepted STX, its
/// length is the one its LEN byte (and signed flag) implies, and unless
/// checksums are skipped its message id is in the catalog and its checksum
/// is the one computed over its bytes with that id's seed.
pub proof fn lemma_accepted_frame_checked(cfg: CodecConfig, s: Seq<u8>)
    requires
        frame_step(cfg, s) matches FrameStep::Accept(_),
    ensures
        ({
            let f = s.take(claimed_size(s));
            let id = frame_message_id(f);
            &&& accepted_stx(cfg, f[0])
            &&& if f[0] == V1_STX { v1::is_frame(f) } else { v2::is_frame(f) }
            &&& frame_step(cfg, s) == FrameStep::Accept(f.len())
            &&& !cfg.skip_crc_validation ==> {
                &&& extra_crc_entry(id).is_some()
                &&& frame_checksum(f) == crc_of(frame_checksum_input(f), extra_crc_entry(id).unwrap())
            }
        }),
{
}

} // verus!
