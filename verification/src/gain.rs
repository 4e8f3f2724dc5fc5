//! Gain stage setting and its one-byte hardware codec.

use vstd::prelude::*;

verus! {

/// The two gain stages the dongle offers, with hardware codes `0` and `1`.
#[derive(Debug, Clone, Copy, PartialEq, Eq, Structural)]
pub enum Gain {
    Low,
    High,
}

impl Gain {
    /// The hardware code of each variant.
    pub open spec fn spec_encode(self) -> u8 {
        match self {
            Gain::Low => 0,
            Gain::High => 1,
        }
    }

    /// The variant a hardware byte decodes to. Unknown codes are a
    /// tolerated hardware quirk and fall back to the default variant.
    pub open spec fn spec_decode(value: u8) -> Gain {
        if value == 0 {
            Gain::Low
        } else if value == 1 {
            Gain::High
        } else {
            Gain::Low
        }
    }

    /// The payload byte that selects this gain stage.
    pub fn encode(self) -> (r: u8)
        ensures
            r == self.spec_encode(),
    {
        match self {
            Gain::Low => 0,
            Gain::High => 1,
        }
    }
}

impl From<u8> for Gain {
    /// Decoding is total: any byte outside `0..=1` yields the default.
    fn from(value: u8) -> (r: Self) {
        match value {
            0 => Gain::Low,
            1 => Gain::High,
            _ => Gain::Low,
        }
    }
}

impl vstd::std_specs::convert::FromSpecImpl<u8> for Gain {
    open spec fn obeys_from_spec() -> bool {
        true
    }

    open spec fn from_spec(value: u8) -> Gain {
        Gain::spec_decode(value)
    }
}

impl Default for Gain {
    fn default() -> (r: Self)
        ensures
            r == Gain::Low,
    {
        Gain::Low
    }
}

/// Encoding inverts decoding on every known hardware code.
pub proof fn lemma_gain_codec_round_trip(value: u8)
    requires
        value <= 1,
    ensures
        Gain::spec_decode(value).spec_encode() == value,
{
}

/// Any byte outside the known code range decodes to the default variant.
pub proof fn lemma_gain_decode_out_of_range(value: u8)
    requires
        value > 1,
    ensures
        Gain::spec_decode(value) == Gain::Low,
{
}

} // verus!
