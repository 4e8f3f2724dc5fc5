use mdrop::commands::{volume_from_response, MoondropCommand, MoondropResponse};
use mdrop::filter::Filter;
use mdrop::gain::Gain;
use mdrop::indicator_state::IndicatorState;
use mdrop::volume_level::{convert_volume_to_payload, convert_volume_to_percent};

#[test]
fn filter_codec_round_trips_on_known_codes() {
    for b in 0u8..=4 {
        assert_eq!(Filter::from(b).encode(), b);
    }
}

#[test]
fn gain_codec_round_trips_on_known_codes() {
    for b in 0u8..=1 {
        assert_eq!(Gain::from(b).encode(), b);
    }
}

#[test]
fn indicator_codec_round_trips_on_known_codes() {
    for b in 0u8..=2 {
        assert_eq!(IndicatorState::from(b).encode(), b);
    }
}

#[test]
fn out_of_range_codes_decode_to_defaults() {
    for b in 5u8..=255 {
        assert_eq!(Filter::from(b), Filter::FastRollOffLowLatency);
    }
    for b in 2u8..=255 {
        assert_eq!(Gain::from(b), Gain::Low);
    }
    for b in 3u8..=255 {
        assert_eq!(IndicatorState::from(b), IndicatorState::Enabled);
    }
}

#[test]
fn default_variants_match_code_zero() {
    assert_eq!(Filter::default(), Filter::FastRollOffLowLatency);
    assert_eq!(Gain::default(), Gain::Low);
    assert_eq!(IndicatorState::default(), IndicatorState::Enabled);
}

#[test]
fn volume_percent_endpoints() {
    assert_eq!(convert_volume_to_percent(0x00), 100);
    assert_eq!(convert_volume_to_percent(0x70), 0);
    assert_eq!(convert_volume_to_percent(0x38), 50);
}

#[test]
fn volume_percent_is_monotonically_non_increasing() {
    for raw in 1u8..=255 {
        assert!(convert_volume_to_percent(raw) <= convert_volume_to_percent(raw - 1));
    }
}

#[test]
fn volume_percent_clamps_out_of_range_raw_values() {
    for raw in 0x71u8..=255 {
        assert_eq!(convert_volume_to_percent(raw), convert_volume_to_percent(0x70));
    }
    assert_eq!(convert_volume_to_percent(0xFF), 0);
}

#[test]
fn volume_payload_pins_exact_bytes() {
    assert_eq!(convert_volume_to_payload(0), 0x6F);
    assert_eq!(convert_volume_to_payload(1), 0x6E);
    assert_eq!(convert_volume_to_payload(50), 0x37);
    assert_eq!(convert_volume_to_payload(99), 0x01);
    assert_eq!(convert_volume_to_payload(100), 0x00);
}

#[test]
fn volume_payload_stays_in_hardware_range() {
    for percent in 0u8..=100 {
        assert!(convert_volume_to_payload(percent) <= 0x70);
    }
}

#[test]
fn get_commands_match_catalog_headers() {
    assert_eq!(MoondropCommand::get_any(), vec![0xC0, 0xA5, 0xA3]);
    assert_eq!(MoondropCommand::get_volume(), vec![0xC0, 0xA5, 0xA2]);
}

#[test]
fn set_filter_command_is_header_plus_payload() {
    assert_eq!(
        MoondropCommand::set_filter(Filter::NonOversampling),
        vec![0xC0, 0xA5, 0x01, 0x04]
    );
    for b in 0u8..=4 {
        let cmd = MoondropCommand::set_filter(Filter::from(b));
        assert_eq!(cmd.len(), 4);
        assert_eq!(cmd[..3], [0xC0, 0xA5, 0x01]);
        assert_eq!(cmd[3], b);
    }
}

#[test]
fn set_gain_command_is_header_plus_payload() {
    assert_eq!(MoondropCommand::set_gain(Gain::High), vec![0xC0, 0xA5, 0x02, 0x01]);
    assert_eq!(MoondropCommand::set_gain(Gain::Low), vec![0xC0, 0xA5, 0x02, 0x00]);
}

#[test]
fn set_volume_command_is_header_plus_scaled_payload() {
    assert_eq!(MoondropCommand::set_volume(100), vec![0xC0, 0xA5, 0x04, 0x00]);
    assert_eq!(MoondropCommand::set_volume(0), vec![0xC0, 0xA5, 0x04, 0x6F]);
    assert_eq!(MoondropCommand::set_volume(50), vec![0xC0, 0xA5, 0x04, 0x37]);
}

#[test]
fn set_indicator_command_is_header_plus_payload() {
    assert_eq!(
        MoondropCommand::set_indicator_state(IndicatorState::Disabled),
        vec![0xC0, 0xA5, 0x06, 0x02]
    );
    assert_eq!(
        MoondropCommand::set_indicator_state(IndicatorState::Enabled),
        vec![0xC0, 0xA5, 0x06, 0x00]
    );
}

#[test]
fn get_any_response_round_trip_scenario() {
    let data = [0x00, 0x00, 0x00, 0x02, 0x01, 0x01, 0x00];
    let resp = MoondropResponse::new(&data);
    assert_eq!(resp.filter, Filter::SlowRollOffLowLatency);
    assert_eq!(resp.gain, Gain::High);
    assert_eq!(resp.state, IndicatorState::DisabledTemp);
}

#[test]
fn response_decoding_tolerates_junk_setting_bytes() {
    let data = [0xFF, 0xFF, 0xFF, 0x99, 0x99, 0x99, 0xFF];
    let resp = MoondropResponse::new(&data);
    assert_eq!(resp.filter, Filter::FastRollOffLowLatency);
    assert_eq!(resp.gain, Gain::Low);
    assert_eq!(resp.state, IndicatorState::Enabled);
}

#[test]
fn volume_is_read_from_offset_four() {
    let data = [0x00, 0x00, 0x00, 0x00, 0x38, 0x00, 0x00];
    assert_eq!(volume_from_response(&data), 0x38);
    assert_eq!(convert_volume_to_percent(volume_from_response(&data)), 50);
}
