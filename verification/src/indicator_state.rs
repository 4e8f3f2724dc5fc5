//! Front-panel indicator setting and its one-byte hardware codec.

use vstd::prelude::*;

verus! {

/// The indicator behaviours the dongle offers, with hardware codes
/// `0..=2`. `DisabledTemp` switches the light off until the next
/// power cycle; `Disabled` is persistent.
#[derive(Debug, Clone, Copy, PartialEq, Eq, Structural)]
pub enum IndicatorState {
    Enabled,
    DisabledTemp,
    Disabled,
}

impl IndicatorState {
    /// The hardware code of each variant.
    pub open spec fn spec_encode(self) -> u8 {
        match self {
            IndicatorState::Enabled => 0,
            IndicatorState::DisabledTemp => 1,
            IndicatorState::Disabled => 2,
        }
    }

    /// The variant a hardware byte decodes to. Unknown codes are a
    /// tolerated hardware quirk and fall back to the default variant.
    pub open spec fn spec_decode(value: u8) -> IndicatorState {
        if value == 0 {
            IndicatorState::Enabled
        } else if value == 1 {
            IndicatorState::DisabledTemp
        } else if value == 2 {
            IndicatorState::Disabled
        } else {
            IndicatorState::Enabled
        }
    }

    /// The payload byte that selects this indicator behaviour.
    pub fn encode(self) -> (r: u8)
        ensures
            r == self.spec_encode(),
    {
        match self {
            IndicatorState::Enabled => 0,
            IndicatorState::DisabledTemp => 1,
            IndicatorState::Disabled => 2,
        }
    }
}

impl From<u8> for IndicatorState {
    /// Decoding is total: any byte outside `0..=2` yields the default.
    fn from(value: u8) -> (r: Self) {
        match value {
            0 => IndicatorState::Enabled,
            1 => IndicatorState::DisabledTemp,
            2 => IndicatorState::Disabled,
            _ => IndicatorState::Enabled,
        }
    }
}

impl vstd::std_specs::convert::FromSpecImpl<u8> for IndicatorState {
    open spec fn obeys_from_spec() -> bool {
        true
    }

    open spec fn from_spec(value: u8) -> IndicatorState {
        IndicatorState::spec_decode(value)
    }
}

impl Default for IndicatorState {
    fn default() -> (r: Self)
        ensures
            r == IndicatorState::Enabled,
    {
        IndicatorState::Enabled
    }
}

/// Encoding inverts decoding on every known hardware code.
pub proof fn lemma_indicator_codec_round_trip(value: u8)
    requires
        value <= 2,
    ensures
        IndicatorState::spec_decode(value).spec_encode() == value,
{
}

/// Any byte outside the known code range decodes to the default variant.
pub proof fn lemma_indicator_decode_out_of_range(value: u8)
    requires
        value > 2,
    ensures
        IndicatorState::spec_decode(value) == IndicatorState::Enabled,
{
}

} // verus!
