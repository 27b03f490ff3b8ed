use vstd::prelude::*;

verus! {

/// One captured sample per channel at a single instant, fixed width.
///
/// Samples are carried as the 32-bit patterns of single-precision values;
/// the all-zero pattern is the silent sample, so the all-zero frame is
/// silence. The width is fixed when the frame is built and never changes.
pub struct Frame {
    samples: Vec<u32>,
}

/// The silent frame of a given width: one zero sample per channel.
pub open spec fn silence_seq(channels: nat) -> Seq<u32> {
    Seq::new(channels, |i: int| 0u32)
}

impl View for Frame {
    type V = Seq<u32>;

    closed spec fn view(&self) -> Seq<u32> {
        self.samples@
    }
}

impl Frame {
    /// Build a frame that holds exactly the given samples, in order.
    pub fn from_samples(samples: Vec<u32>) -> (f: Frame)
        ensures
            f@ == samples@,
    {
        Frame { samples }
    }

    /// The silent frame for the given channel count.
    pub fn silence(channels: usize) -> (f: Frame)
        ensures
            f@ == silence_seq(channels as nat),
    {
        let mut samples: Vec<u32> = Vec::new();
        let mut i: usize = 0;
        while i < channels
            invariant
                i <= channels,
                samples@ =~= silence_seq(i as nat),
            decreases channels - i,
        {
            samples.push(0u32);
            i = i + 1;
            proof {
                assert(samples@ =~= silence_seq(i as nat));
            }
        }
        Frame { samples }
    }

    /// How many channels the frame spans.
    pub fn width(&self) -> (n: usize)
        ensures
            n == self@.len(),
    {
        self.samples.len()
    }

    /// The sample of channel `c`.
    pub fn sample(&self, c: usize) -> (s: u32)
        requires
            c < self@.len(),
        ensures
            s == self@[c as int],
    {
        self.samples[c]
    }

    /// The samples of the frame, in channel order.
    pub fn into_samples(self) -> (v: Vec<u32>)
        ensures
            v@ == self@,
    {
        self.samples
    }
}

} // verus!
