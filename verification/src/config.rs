use vstd::prelude::*;
use crate::ids::{uuid_v5_in_oid, v5_in_oid};

verus! {

/// Why a capture bridge could not be built. Every failure here is final:
/// nothing degraded is built in its place.
#[derive(Clone, Copy, Debug, PartialEq, Eq, Structural)]
pub enum CaptureError {
    /// The requested channel count is not one the node supports.
    UnsupportedChannelCount,
    /// No advertised device configuration can serve the request.
    NoMatchingConfig,
}

/// A requested capture configuration: how many interleaved channels the
/// stream carries and at what rate, in Hz, it is sampled.
#[derive(Clone, Copy, PartialEq, Eq, Structural)]
pub struct MicConfig {
    pub channels: u16,
    pub sample_rate: u32,
}

/// What a device advertises for one of its input stream configurations:
/// whether its sample format is 32-bit float, its channel count, and the
/// range of sample rates it supports.
#[derive(Clone, Copy, PartialEq, Eq, Structural)]
pub struct StreamConfigRange {
    pub float32: bool,
    pub channels: u16,
    pub min_sample_rate: u32,
    pub max_sample_rate: u32,
}

/// A device configuration is taken for a request exactly when its format is
/// 32-bit float, its channel count matches, and the requested rate lies
/// strictly between the supported minimum and maximum (both bounds
/// exclusive: a rate equal to either bound is rejected).
pub open spec fn spec_matches(c: StreamConfigRange, cfg: MicConfig) -> bool {
    &&& c.float32
    &&& c.channels == cfg.channels
    &&& c.min_sample_rate < cfg.sample_rate
    &&& c.max_sample_rate > cfg.sample_rate
}

/// Whether the advertised configuration `c` can serve the request `cfg`.
pub fn config_matches(c: &StreamConfigRange, cfg: &MicConfig) -> (r: bool)
    ensures
        r == spec_matches(*c, *cfg),
{
    c.float32
        && c.channels == cfg.channels
        && c.min_sample_rate < cfg.sample_rate
        && c.max_sample_rate > cfg.sample_rate
}

/// The configuration a capture stream is opened with: the index of the
/// earliest advertised candidate that can serve the request. When no
/// candidate can, construction has failed: `NoMatchingConfig`, and nothing
/// degraded is selected instead.
pub fn select_config(candidates: &Vec<StreamConfigRange>, cfg: &MicConfig) -> (r: Result<
    usize,
    CaptureError,
>)
    ensures
        match r {
            Result::Ok(i) => {
                &&& i < candidates@.len()
                &&& spec_matches(candidates@[i as int], *cfg)
                &&& forall|j: int| 0 <= j < i ==> !spec_matches(candidates@[j], *cfg)
            },
            Result::Err(e) => {
                &&& forall|j: int|
                    0 <= j < candidates@.len() ==> !spec_matches(candidates@[j], *cfg)
                &&& e == CaptureError::NoMatchingConfig
            },
        },
{
    let mut i: usize = 0;
    while i < candidates.len()
        invariant
            i <= candidates@.len(),
            forall|j: int| 0 <= j < i ==> !spec_matches(candidates@[j], *cfg),
        decreases candidates@.len() - i,
    {
        if config_matches(&candidates[i], cfg) {
            return Result::Ok(i);
        }
        i = i + 1;
    }
    Result::Err(CaptureError::NoMatchingConfig)
}

impl MicConfig {
    /// The identity every capture configuration maps to. It is derived from
    /// the type's name, not from the field values, so every configuration
    /// shares it: two requests with different channel counts or sample rates
    /// collide under this scheme.
    pub open spec fn spec_id() -> u128 {
        uuid_v5_in_oid("mic_capture::MicConfig"@)
    }

    /// The stable identifier that distinguishes this node kind from other
    /// kinds in a host graph's dispatch table. Derived from the type's name
    /// alone: it does not vary with `channels` or `sample_rate`.
    pub fn id(&self) -> (r: u128)
        ensures
            r == Self::spec_id(),
    {
        v5_in_oid("mic_capture::MicConfig")
    }
}

} // verus!
