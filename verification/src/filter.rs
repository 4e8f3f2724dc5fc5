//! Digital filter curve setting and its one-byte hardware codec.

use vstd::prelude::*;

verus! {

/// The filter curves the dongle's DAC can apply, each with a fixed
/// one-byte hardware code in `0..=4`.
#[derive(Debug, Clone, Copy, PartialEq, Eq, Structural)]
pub enum Filter {
    FastRollOffLowLatency,
    FastRollOffPhaseCompensated,
    SlowRollOffLowLatency,
    SlowRollOffPhaseCompensated,
    NonOversampling,
}

impl Filter {
    /// The hardware code of each variant.
    pub open spec fn spec_encode(self) -> u8 {
        match self {
            Filter::FastRollOffLowLatency => 0,
            Filter::FastRollOffPhaseCompensated => 1,
            Filter::SlowRollOffLowLatency => 2,
            Filter::SlowRollOffPhaseCompensated => 3,
            Filter::NonOversampling => 4,
        }
    }

    /// The variant a hardware byte decodes to. Unknown codes are a
    /// tolerated hardware quirk and fall back to the default variant.
    pub open spec fn spec_decode(value: u8) -> Filter {
        if value == 0 {
            Filter::FastRollOffLowLatency
        } else if value == 1 {
            Filter::FastRollOffPhaseCompensated
        } else if value == 2 {
            Filter::SlowRollOffLowLatency
        } else if value == 3 {
            Filter::SlowRollOffPhaseCompensated
        } else if value == 4 {
            Filter::NonOversampling
        } else {
            Filter::FastRollOffLowLatency
        }
    }

    /// The payload byte that selects this filter.
    pub fn encode(self) -> (r: u8)
        ensures
            r == self.spec_encode(),
    {
        match self {
            Filter::FastRollOffLowLatency => 0,
            Filter::FastRollOffPhaseCompensated => 1,
            Filter::SlowRollOffLowLatency => 2,
            Filter::SlowRollOffPhaseCompensated => 3,
            Filter::NonOversampling => 4,
        }
    }
}

impl From<u8> for Filter {
    /// Decoding is total: any byte outside `0..=4` yields the default.
    fn from(value: u8) -> (r: Self) {
        match value {
            0 => Filter::FastRollOffLowLatency,
            1 => Filter::FastRollOffPhaseCompensated,
            2 => Filter::SlowRollOffLowLatency,
            3 => Filter::SlowRollOffPhaseCompensated,
            4 => Filter::NonOversampling,
            _ => Filter::FastRollOffLowLatency,
        }
    }
}

impl vstd::std_specs::convert::FromSpecImpl<u8> for Filter {
    open spec fn obeys_from_spec() -> bool {
        true
    }

    open spec fn from_spec(value: u8) -> Filter {
        Filter::spec_decode(value)
    }
}

impl Default for Filter {
    fn default() -> (r: Self)
        ensures
            r == Filter::FastRollOffLowLatency,
    {
        Filter::FastRollOffLowLatency
    }
}

/// Encoding inverts decoding on every known hardware code.
pub proof fn lemma_filter_codec_round_trip(value: u8)
    requires
        value <= 4,
    ensures
        Filter::spec_decode(value).spec_encode() == value,
{
}

/// Any byte outside the known code range decodes to the default variant.
pub proof fn lemma_filter_decode_out_of_range(value: u8)
    requires
        value > 4,
    ensures
        Filter::spec_decode(value) == Filter::FastRollOffLowLatency,
{
}

} // verus!
