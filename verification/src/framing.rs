use vstd::prelude::*;
use vstd::arithmetic::div_mod::{lemma_fundamental_div_mod, lemma_hoist_over_denominator};
use crate::frame::Frame;

verus! {

/// The frames that a raw interleaved slice yields for a given channel count:
/// consecutive groups of `channels` samples, in delivery order; a trailing
/// group too short to fill a frame is dropped, never padded.
pub open spec fn spec_frames_of(raw: Seq<u32>, channels: nat) -> Seq<Seq<u32>>
    recommends
        channels > 0,
{
    Seq::new(raw.len() / channels, |k: int| raw.subrange(k * channels, (k + 1) * channels))
}

/// Partition a raw interleaved slice into whole frames of `channels`
/// samples each, in order; trailing samples that do not fill a whole frame
/// are dropped.
pub fn frames_of_slice(raw: &Vec<u32>, channels: usize) -> (frames: Vec<Frame>)
    requires
        channels > 0,
    ensures
        frames@.len() == raw@.len() / (channels as nat),
        forall|k: int|
            0 <= k < frames@.len() ==> (#[trigger] frames@[k])@ == spec_frames_of(
                raw@,
                channels as nat,
            )[k],
{
    let n = raw.len();
    let mut frames: Vec<Frame> = Vec::new();
    let mut i: usize = 0;
    proof {
        assert(frames@.len() * channels == 0) by (nonlinear_arith)
            requires
                frames@.len() == 0,
        ;
    }
    while n - i >= channels
        invariant
            channels > 0,
            i <= n,
            n == raw@.len(),
            i == frames@.len() * channels,
            forall|k: int|
                0 <= k < frames@.len() ==> (#[trigger] frames@[k])@ == raw@.subrange(
                    k * channels,
                    (k + 1) * channels,
                ),
        decreases n - i,
    {
        let mut group: Vec<u32> = Vec::new();
        let mut j: usize = 0;
        while j < channels
            invariant
                j <= channels,
                i + channels <= n,
                n == raw@.len(),
                group@ =~= raw@.subrange(i as int, i + j),
            decreases channels - j,
        {
            group.push(raw[i + j]);
            j = j + 1;
            proof {
                assert(group@ =~= raw@.subrange(i as int, i + j));
            }
        }
        let ghost old_len = frames@.len() as int;
        frames.push(Frame::from_samples(group));
        proof {
            assert(old_len * channels + channels == (old_len + 1) * channels) by (nonlinear_arith);
            assert(frames@[old_len]@ =~= raw@.subrange(
                old_len * channels,
                (old_len + 1) * channels,
            ));
        }
        i = i + channels;
    }
    proof {
        lemma_whole_group_count(n as int, frames@.len() as int, channels as int);
    }
    frames
}

/// When `m` whole groups of `channels` samples have been taken and fewer
/// than `channels` samples remain, `m` is exactly `n / channels`.
proof fn lemma_whole_group_count(n: int, m: int, channels: int)
    requires
        channels > 0,
        m >= 0,
        m * channels <= n,
        n - m * channels < channels,
    ensures
        m == n / channels,
{
    assert(m == n / channels) by (nonlinear_arith)
        requires
            channels > 0,
            m >= 0,
            m * channels <= n,
            n - m * channels < channels,
    ;
}

/// Frames are produced in delivery order with no reordering or duplication:
/// the frames of two raw deliveries, the first of which ends on a frame
/// boundary, are exactly the frames of the first followed by the frames of
/// the second.
pub proof fn lemma_frames_of_append(a: Seq<u32>, b: Seq<u32>, channels: nat)
    requires
        channels > 0,
        a.len() % channels == 0,
    ensures
        spec_frames_of(a + b, channels) == spec_frames_of(a, channels) + spec_frames_of(
            b,
            channels,
        ),
{
    let ab = a + b;
    let ch = channels as int;
    let la = a.len() as int;
    let lb = b.len() as int;
    let m = la / ch;
    lemma_fundamental_div_mod(la, ch);
    assert(la == m * ch);
    lemma_hoist_over_denominator(lb, m, channels);
    assert(ab.len() / channels == m + lb / ch);
    let lhs = spec_frames_of(ab, channels);
    let rhs = spec_frames_of(a, channels) + spec_frames_of(b, channels);
    assert(lhs.len() == rhs.len());
    assert forall|k: int| 0 <= k < lhs.len() implies lhs[k] =~= rhs[k] by {
        if k < m {
            assert(0 <= k * ch && (k + 1) * ch <= m * ch) by (nonlinear_arith)
                requires
                    ch > 0,
                    0 <= k < m,
            ;
            assert((k + 1) * ch == k * ch + ch) by (nonlinear_arith);
            assert(lhs[k] == ab.subrange(k * ch, (k + 1) * ch));
            assert(rhs[k] == a.subrange(k * ch, (k + 1) * ch));
            assert forall|t: int| 0 <= t < ch implies #[trigger] (ab.subrange(
                k * ch,
                (k + 1) * ch,
            )[t]) == a.subrange(k * ch, (k + 1) * ch)[t] by {
                assert(ab[k * ch + t] == a[k * ch + t]);
            }
            assert(ab.subrange(k * ch, (k + 1) * ch) =~= a.subrange(k * ch, (k + 1) * ch));
        } else {
            let kb = k - m;
            assert(k * ch == la + kb * ch && (k + 1) * ch == la + (kb + 1) * ch)
                by (nonlinear_arith)
                requires
                    kb == k - m,
                    la == m * ch,
            ;
            let q = lb / ch;
            assert(kb < q);
            assert(q * ch <= lb) by {
                lemma_fundamental_div_mod(lb, ch);
                assert(0 <= lb % ch);
            }
            assert(0 <= kb * ch && (kb + 1) * ch <= lb) by (nonlinear_arith)
                requires
                    ch > 0,
                    0 <= kb,
                    kb < q,
                    q * ch <= lb,
            ;
            assert((kb + 1) * ch == kb * ch + ch) by (nonlinear_arith);
            assert(lhs[k] == ab.subrange(la + kb * ch, la + (kb + 1) * ch));
            assert(rhs[k] == b.subrange(kb * ch, (kb + 1) * ch));
            assert forall|t: int| 0 <= t < ch implies #[trigger] (ab.subrange(
                la + kb * ch,
                la + (kb + 1) * ch,
            )[t]) == b.subrange(kb * ch, (kb + 1) * ch)[t] by {
                assert(ab[la + kb * ch + t] == b[kb * ch + t]);
            }
            assert(ab.subrange(la + kb * ch, la + (kb + 1) * ch) =~= b.subrange(
                kb * ch,
                (kb + 1) * ch,
            ));
        }
    }
    assert(lhs =~~= rhs);
}

} // verus!
