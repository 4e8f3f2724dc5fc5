//! The command catalog: the fixed byte sequences of every operation the
//! dongle understands, and the layout of its fixed seven-byte responses.
//!
//! Every operation is a three-byte header; set-operations append exactly
//! one encoded payload byte. The physical transfer of these bytes is the
//! caller's business: this module only builds commands and decodes
//! response buffers.

use vstd::prelude::*;

use crate::filter::Filter;
use crate::gain::Gain;
use crate::indicator_state::IndicatorState;
use crate::volume_level;

verus! {

/// The namespace of command builders, one per protocol operation.
pub struct MoondropCommand;

/// The settings decoded from a get-any response buffer: its bytes at
/// offsets 3, 4 and 5 carry the filter, gain and indicator codes.
#[derive(Debug, Clone, Copy, PartialEq, Eq, Structural)]
pub struct MoondropResponse {
    pub filter: Filter,
    pub gain: Gain,
    pub state: IndicatorState,
}

/// The get-any (status) command bytes.
pub open spec fn spec_get_any_command() -> Seq<u8> {
    seq![0xC0u8, 0xA5u8, 0xA3u8]
}

/// The get-volume command bytes.
pub open spec fn spec_get_volume_command() -> Seq<u8> {
    seq![0xC0u8, 0xA5u8, 0xA2u8]
}

/// The set-filter command header.
pub open spec fn spec_set_filter_header() -> Seq<u8> {
    seq![0xC0u8, 0xA5u8, 0x01u8]
}

/// The set-gain command header.
pub open spec fn spec_set_gain_header() -> Seq<u8> {
    seq![0xC0u8, 0xA5u8, 0x02u8]
}

/// The set-volume command header.
pub open spec fn spec_set_volume_header() -> Seq<u8> {
    seq![0xC0u8, 0xA5u8, 0x04u8]
}

/// The set-indicator command header.
pub open spec fn spec_set_indicator_header() -> Seq<u8> {
    seq![0xC0u8, 0xA5u8, 0x06u8]
}

impl MoondropResponse {
    /// Decode the three setting bytes of a get-any response buffer.
    /// Decoding never fails: out-of-range bytes fall back to each
    /// setting's default variant.
    pub fn new(data: &[u8]) -> (r: Self)
        requires
            data@.len() >= 6,
        ensures
            r.filter == Filter::spec_decode(data@[3]),
            r.gain == Gain::spec_decode(data@[4]),
            r.state == IndicatorState::spec_decode(data@[5]),
    {
        let filter = Filter::from(data[3]);
        let gain = Gain::from(data[4]);
        let state = IndicatorState::from(data[5]);
        Self { filter, gain, state }
    }
}

/// The raw volume byte of a get-volume response buffer, at offset 4.
pub fn volume_from_response(data: &[u8]) -> (r: u8)
    requires
        data@.len() >= 5,
    ensures
        r == data@[4],
{
    data[4]
}

impl MoondropCommand {
    /// The command that queries filter, gain and indicator state.
    pub fn get_any() -> (r: Vec<u8>)
        ensures
            r@ == spec_get_any_command(),
    {
        let mut cmd: Vec<u8> = Vec::new();
        cmd.push(0xC0);
        cmd.push(0xA5);
        cmd.push(0xA3);
        proof {
            assert(cmd@ =~= spec_get_any_command());
        }
        cmd
    }

    /// The command that queries the hardware volume.
    pub fn get_volume() -> (r: Vec<u8>)
        ensures
            r@ == spec_get_volume_command(),
    {
        let mut cmd: Vec<u8> = Vec::new();
        cmd.push(0xC0);
        cmd.push(0xA5);
        cmd.push(0xA2);
        proof {
            assert(cmd@ =~= spec_get_volume_command());
        }
        cmd
    }

    /// The four-byte command that selects a filter curve: the set-filter
    /// header followed by the encoded variant.
    pub fn set_filter(filter: Filter) -> (r: Vec<u8>)
        ensures
            r@ == spec_set_filter_header().push(filter.spec_encode()),
            r@.len() == 4,
    {
        let mut cmd: Vec<u8> = Vec::new();
        cmd.push(0xC0);
        cmd.push(0xA5);
        cmd.push(0x01);
        cmd.push(filter.encode());
        proof {
            assert(cmd@ =~= spec_set_filter_header().push(filter.spec_encode()));
        }
        cmd
    }

    /// The four-byte command that selects a gain stage: the set-gain
    /// header followed by the encoded variant.
    pub fn set_gain(gain: Gain) -> (r: Vec<u8>)
        ensures
            r@ == spec_set_gain_header().push(gain.spec_encode()),
            r@.len() == 4,
    {
        let mut cmd: Vec<u8> = Vec::new();
        cmd.push(0xC0);
        cmd.push(0xA5);
        cmd.push(0x02);
        cmd.push(gain.encode());
        proof {
            assert(cmd@ =~= spec_set_gain_header().push(gain.spec_encode()));
        }
        cmd
    }

    /// The four-byte command that sets the hardware volume to the given
    /// percentage: the set-volume header followed by the scaled raw byte.
    pub fn set_volume(level: u8) -> (r: Vec<u8>)
        requires
            level <= 100,
        ensures
            r@ == spec_set_volume_header().push(
                volume_level::spec_volume_payload(level as int) as u8,
            ),
            r@.len() == 4,
    {
        let value = volume_level::convert_volume_to_payload(level);
        let mut cmd: Vec<u8> = Vec::new();
        cmd.push(0xC0);
        cmd.push(0xA5);
        cmd.push(0x04);
        cmd.push(value);
        proof {
            assert(cmd@ =~= spec_set_volume_header().push(
                volume_level::spec_volume_payload(level as int) as u8,
            ));
        }
        cmd
    }

    /// The four-byte command that sets the indicator behaviour: the
    /// set-indicator header followed by the encoded variant.
    pub fn set_indicator_state(indicator_state: IndicatorState) -> (r: Vec<u8>)
        ensures
            r@ == spec_set_indicator_header().push(indicator_state.spec_encode()),
            r@.len() == 4,
    {
        let mut cmd: Vec<u8> = Vec::new();
        cmd.push(0xC0);
        cmd.push(0xA5);
        cmd.push(0x06);
        cmd.push(indicator_state.encode());
        proof {
            assert(cmd@ =~= spec_set_indicator_header().push(indicator_state.spec_encode()));
        }
        cmd
    }
}

} // verus!
