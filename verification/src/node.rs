use vstd::prelude::*;
use std::sync::mpsc::{Receiver, Sender};
use crate::channel::{new_frame_channel, send_frame, try_recv_frame};
use crate::config::{CaptureError, MicConfig};
use crate::frame::{silence_seq, Frame};
use crate::framing::frames_of_slice;

verus! {

/// The producing half of the bridge. The capture callback hands it each raw
/// interleaved delivery; it queues the whole frames for the consuming node.
pub struct FrameSender {
    channels: usize,
    tx: Sender<Frame>,
}

/// The consuming half of the bridge: a zero-input graph node with one output
/// per captured channel. Each pull drains the oldest queued frame, or yields
/// silence when the queue is momentarily empty.
pub struct MicNode {
    channels: usize,
    rx: Receiver<Frame>,
}

/// What one pull yields, given what the queue handed back: the received
/// frame when it spans the node's channels, and the silent frame otherwise —
/// in particular when the queue was empty. Preferring silence over blocking
/// is the underrun policy.
pub open spec fn spec_pulled(got: Option<Frame>, channels: nat) -> Seq<u32> {
    match got {
        Option::Some(f) => if f@.len() == channels {
            f@
        } else {
            silence_seq(channels)
        },
        Option::None => silence_seq(channels),
    }
}

/// Underrun policy, stated once: a pull that finds the queue empty yields
/// exactly the all-zero frame of the node's arity.
pub proof fn lemma_empty_pull_is_silence(channels: nat)
    ensures
        spec_pulled(Option::None, channels) == silence_seq(channels),
{
}

/// Turn what the queue handed back into the frame a pull returns, following
/// `spec_pulled`.
pub fn frame_or_silence(got: Option<Frame>, channels: usize) -> (r: Frame)
    ensures
        r@ == spec_pulled(got, channels as nat),
{
    match got {
        Option::Some(f) => {
            if f.width() == channels {
                f
            } else {
                Frame::silence(channels)
            }
        },
        Option::None => Frame::silence(channels),
    }
}

/// A block of `size` pulls laid out column-major: `out` holds one column per
/// channel, and position `i` of every column comes from the one frame the
/// `i`-th pull drained (or from silence where that pull found nothing).
pub open spec fn spec_block_of(
    gots: Seq<Option<Frame>>,
    channels: nat,
    size: nat,
    out: Seq<Seq<u32>>,
) -> bool {
    &&& out.len() == channels
    &&& forall|c: int| 0 <= c < out.len() ==> (#[trigger] out[c]).len() == size
    &&& forall|c: int, i: int|
        0 <= c < out.len() && 0 <= i < size ==> #[trigger] out[c][i] == spec_pulled(
            gots[i],
            channels,
        )[c]
}

/// The columns of a block result, as sequences.
pub open spec fn col_views(out: Seq<Vec<u32>>) -> Seq<Seq<u32>> {
    out.map_values(|col: Vec<u32>| col@)
}

/// The pull results a queue snapshot yields when no producer intervenes:
/// pull `i` drains the `i`-th oldest frame, each exactly once and in order,
/// and every pull past the queue's end finds it empty. The same sequence
/// feeds `size` single pulls and one block pull of `size`; that the live
/// queue hands frames out in this order across the thread boundary is the
/// sending order of `std::sync::mpsc`, stated at the trusted wrappers.
pub open spec fn spec_drained(q: Seq<Frame>, size: nat) -> Seq<Option<Frame>> {
    Seq::new(size, |i: int| if i < q.len() { Option::Some(q[i]) } else { Option::None })
}

/// Frame ordering at the consumer, over the modeled queue: a block pull
/// whose `size` drains saw the queued frames oldest-first — exactly what
/// `size` single pulls see, since position `i` of both paths yields
/// `spec_pulled(spec_drained(q, size)[i], channels)` — carries each queued
/// frame once, in order, with nothing reordered, duplicated or skipped, and
/// holds silence at every position past the queue's end: an underrun
/// position disturbs no later frame.
pub proof fn lemma_pulls_preserve_queue_order(
    q: Seq<Frame>,
    channels: nat,
    size: nat,
    out: Seq<Seq<u32>>,
)
    requires
        spec_block_of(spec_drained(q, size), channels, size, out),
        forall|i: int| 0 <= i < q.len() ==> (#[trigger] q[i])@.len() == channels,
    ensures
        forall|c: int, i: int|
            0 <= c < channels && 0 <= i < size ==> out[c][i] == (if i < q.len() {
                q[i]@[c]
            } else {
                0u32
            }),
{
    assert forall|c: int, i: int| 0 <= c < channels && 0 <= i < size implies out[c][i] == (
    if i < q.len() {
        q[i]@[c]
    } else {
        0u32
    }) by {
        assert(out[c][i] == spec_pulled(spec_drained(q, size)[i], channels)[c]);
        if i < q.len() {
            assert(spec_pulled(spec_drained(q, size)[i], channels) == q[i]@);
        } else {
            assert(spec_pulled(spec_drained(q, size)[i], channels) == silence_seq(channels));
        }
    }
}

impl FrameSender {
    #[verifier::type_invariant]
    spec fn type_inv(self) -> bool {
        self.channels >= 1
    }

    /// The channel count every queued frame spans.
    pub closed spec fn channel_count(&self) -> nat {
        self.channels as nat
    }

    /// How many samples one whole frame takes.
    pub fn channels(&self) -> (n: usize)
        ensures
            n == self.channel_count(),
    {
        self.channels
    }

    /// Partition one raw interleaved delivery into whole frames and queue
    /// them, oldest first; trailing samples that do not fill a whole frame
    /// are dropped. Returns how many frames were queued, and whether every
    /// whole frame was: it is only when the consuming side is gone that
    /// production stops quietly and the rest of the delivery is dropped.
    pub fn deliver(&self, raw: &Vec<u32>) -> (r: (usize, bool))
        ensures
            r.0 <= raw@.len() / self.channel_count(),
            r.1 ==> r.0 == raw@.len() / self.channel_count(),
            raw@.len() / self.channel_count() == 0 ==> r.0 == 0 && r.1,
            !r.1 ==> r.0 < raw@.len() / self.channel_count(),
    {
        proof {
            use_type_invariant(&*self);
        }
        let frames = frames_of_slice(raw, self.channels);
        let total = frames.len();
        let mut rest = frames;
        let mut queued: usize = 0;
        let mut receiver_live = true;
        while receiver_live && rest.len() > 0
            invariant
                queued + rest@.len() <= total,
                receiver_live ==> queued + rest@.len() == total,
                !receiver_live ==> queued < total,
                total == raw@.len() / self.channel_count(),
            decreases rest@.len(),
        {
            let f = rest.remove(0);
            receiver_live = send_frame(&self.tx, f);
            if receiver_live {
                queued = queued + 1;
            }
        }
        (queued, receiver_live)
    }
}

impl MicNode {
    /// The node's declared output arity.
    pub closed spec fn channel_count(&self) -> nat {
        self.channels as nat
    }

    /// One output per captured channel.
    pub fn outputs(&self) -> (n: usize)
        ensures
            n == self.channel_count(),
    {
        self.channels
    }

    /// The node consumes nothing from the host graph.
    pub fn inputs(&self) -> (n: usize)
        ensures
            n == 0,
    {
        0
    }

    /// Single-sample pull: drain the oldest queued frame, or yield the
    /// silent frame of the node's arity when the queue is momentarily empty.
    /// Never blocks and never fails; whatever came back, the returned frame
    /// spans exactly the node's channels.
    pub fn tick(&mut self) -> (r: Frame)
        ensures
            final (self).channel_count() == old(self).channel_count(),
            r@.len() == old(self).channel_count(),
            exists|got: Option<Frame>| r@ == spec_pulled(got, old(self).channel_count()),
    {
        let got = try_recv_frame(&mut self.rx);
        let ghost g = got;
        let r = frame_or_silence(got, self.channels);
        proof {
            assert(r@ == spec_pulled(g, old(self).channel_count()));
        }
        r
    }

    /// Block pull: repeat the single-sample drain once per position,
    /// `size` times in order, and lay the results out column-major — one
    /// column per channel, each `size` long. Positions whose pull found the
    /// queue empty hold silence; a block is never short and never an error.
    pub fn process(&mut self, size: usize) -> (out: Vec<Vec<u32>>)
        ensures
            final (self).channel_count() == old(self).channel_count(),
            exists|gots: Seq<Option<Frame>>|
                gots.len() == size && spec_block_of(
                    gots,
                    old(self).channel_count(),
                    size as nat,
                    col_views(out@),
                ),
    {
        let channels = self.channels;
        let mut pulled: Vec<Frame> = Vec::new();
        let ghost mut gots: Seq<Option<Frame>> = Seq::empty();
        let mut i: usize = 0;
        while i < size
            invariant
                i <= size,
                self.channels == channels,
                pulled@.len() == i,
                gots.len() == i,
                forall|k: int|
                    0 <= k < i ==> (#[trigger] pulled@[k])@ == spec_pulled(
                        gots[k],
                        channels as nat,
                    ),
            decreases size - i,
        {
            let got = try_recv_frame(&mut self.rx);
            proof {
                gots = gots.push(got);
            }
            let f = frame_or_silence(got, channels);
            pulled.push(f);
            i = i + 1;
        }
        let mut out: Vec<Vec<u32>> = Vec::new();
        let mut c: usize = 0;
        while c < channels
            invariant
                c <= channels,
                self.channels == channels,
                pulled@.len() == size,
                gots.len() == size,
                forall|k: int|
                    0 <= k < size ==> (#[trigger] pulled@[k])@ == spec_pulled(
                        gots[k],
                        channels as nat,
                    ),
                out@.len() == c,
                forall|c2: int| 0 <= c2 < c ==> (#[trigger] out@[c2])@.len() == size,
                forall|c2: int, k: int|
                    0 <= c2 < c && 0 <= k < size ==> #[trigger] out@[c2]@[k] == spec_pulled(
                        gots[k],
                        channels as nat,
                    )[c2],
            decreases channels - c,
        {
            let mut col: Vec<u32> = Vec::new();
            let mut k: usize = 0;
            while k < size
                invariant
                    k <= size,
                    c < channels,
                    pulled@.len() == size,
                    gots.len() == size,
                    forall|k2: int|
                        0 <= k2 < size ==> (#[trigger] pulled@[k2])@ == spec_pulled(
                            gots[k2],
                            channels as nat,
                        ),
                    col@.len() == k,
                    forall|k2: int|
                        0 <= k2 < k ==> #[trigger] col@[k2] == spec_pulled(
                            gots[k2],
                            channels as nat,
                        )[c as int],
                decreases size - k,
            {
                let s = pulled[k].sample(c);
                col.push(s);
                k = k + 1;
            }
            out.push(col);
            c = c + 1;
        }
        proof {
            assert(spec_block_of(gots, old(self).channel_count(), size as nat, col_views(out@)));
        }
        out
    }
}

/// Build the bridge for a requested configuration: the producing half that
/// the capture callback will feed, and the graph node that drains it. Only
/// one- and two-channel capture is supported; any other request fails with
/// `UnsupportedChannelCount`, and nothing degraded is built in its place.
pub fn capture_node(cfg: &MicConfig) -> (r: Result<(FrameSender, MicNode), CaptureError>)
    ensures
        match r {
            Result::Ok(pair) => {
                &&& cfg.channels == 1 || cfg.channels == 2
                &&& pair.0.channel_count() == cfg.channels as nat
                &&& pair.1.channel_count() == cfg.channels as nat
            },
            Result::Err(e) => {
                &&& !(cfg.channels == 1 || cfg.channels == 2)
                &&& e == CaptureError::UnsupportedChannelCount
            },
        },
{
    match cfg.channels {
        1u16 | 2u16 => {
            let (tx, rx) = new_frame_channel();
            let width = cfg.channels as usize;
            let sender = FrameSender { channels: width, tx };
            let node = MicNode { channels: width, rx };
            Result::Ok((sender, node))
        },
        _ => Result::Err(CaptureError::UnsupportedChannelCount),
    }
}

} // verus!
