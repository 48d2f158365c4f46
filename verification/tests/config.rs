use umi_cli::bus::{decode_bitrate, encode_bitrate};
use umi_cli::config::{parse_enable, plan_can_bitrate, BitrateWrite, ConfigError};
use umi_cli::regmap;

#[test]
fn custom_parse() {
    assert_eq!(parse_enable("enable").unwrap(), true);
    assert_eq!(parse_enable("disable").unwrap(), false);
}

#[test]
fn parse_enable_all_words() {
    assert_eq!(parse_enable("true"), Some(true));
    assert_eq!(parse_enable("on"), Some(true));
    assert_eq!(parse_enable("false"), Some(false));
    assert_eq!(parse_enable("off"), Some(false));
    assert_eq!(parse_enable("yes"), None);
    assert_eq!(parse_enable(""), None);
    assert_eq!(parse_enable("Enable"), None);
}

#[test]
fn bitrate_roundtrip_in_range() {
    // Multiples of 100 inside the accepted range survive the register
    // scaling unchanged.
    for rate in [10_000u32, 125_000, 500_000, 1_000_000, 4_999_900, 5_000_000] {
        assert_eq!(decode_bitrate(encode_bitrate(rate)), rate);
    }
}

#[test]
fn bitrate_plan_accepted() {
    // 500 kbit/s nominal, data falls back to nominal.
    assert_eq!(
        plan_can_bitrate(500_000, None),
        Ok(BitrateWrite { nominal: 5_000, data: 5_000 })
    );
    // Separate data rate.
    assert_eq!(
        plan_can_bitrate(500_000, Some(2_000_000)),
        Ok(BitrateWrite { nominal: 5_000, data: 20_000 })
    );
}

#[test]
fn bitrate_addresses_collide_in_observed_revisions() {
    // Observed device revisions expose the data rate at the nominal
    // rate's address. The collision looks like a device-firmware
    // defect; it is flagged here and preserved, not silently fixed.
    assert_eq!(
        regmap::BITRATE_NOMINAL_ADDRESS,
        regmap::BITRATE_DATA_ADDRESS
    );
}

#[test]
fn bitrate_plan_rejected_without_write() {
    // Out-of-range rates are rejected before any register write: no
    // write words exist at all in the rejected outcomes.
    assert_eq!(plan_can_bitrate(9_999, None), Err(ConfigError::NominalTooLow));
    assert_eq!(
        plan_can_bitrate(5_000_001, None),
        Err(ConfigError::NominalTooHigh)
    );
    assert_eq!(
        plan_can_bitrate(500_000, Some(9_900)),
        Err(ConfigError::DataTooLow)
    );
    assert_eq!(
        plan_can_bitrate(500_000, Some(6_000_000)),
        Err(ConfigError::DataTooHigh)
    );
}
