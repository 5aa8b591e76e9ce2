use sbchargelimit::config::{Config, PlugConfig};
use sbchargelimit::scanner::DeviceKind;

#[test]
fn default_config_values() {
    let c = Config::default();
    assert_eq!(c.stop_thresh, 600_000);
    assert_eq!(c.start_thresh, 500_000);
    assert_eq!(c.plugs.len(), 1);
    assert_eq!(c.plugs[0].kind, DeviceKind::PlugMini);
    assert_eq!(c.plugs[0].addr, "");
    assert_eq!(c.plugs[0].search_timeout, 10);
}

#[test]
fn default_thresholds_form_a_band() {
    let c = Config::default();
    let th = c.thresholds().unwrap();
    assert_eq!(th.start(), 500_000);
    assert_eq!(th.stop(), 600_000);
}

#[test]
fn inverted_thresholds_are_rejected() {
    let mut c = Config::default();
    c.start_thresh = 700_000;
    assert!(c.thresholds().is_none());
}

#[test]
fn device_configs_parse_addresses_in_order() {
    let c = Config {
        stop_thresh: 600_000,
        start_thresh: 500_000,
        plugs: vec![
            PlugConfig {
                kind: DeviceKind::PlugMini,
                addr: "AA:BB:CC:DD:EE:FF".to_string(),
                search_timeout: 10,
            },
            PlugConfig {
                kind: DeviceKind::TypeCSwitch,
                addr: "01:02:03:04:05:06".to_string(),
                search_timeout: 25,
            },
        ],
    };
    let devices = c.device_configs().unwrap();
    assert_eq!(devices.len(), 2);
    assert_eq!(devices[0].kind, DeviceKind::PlugMini);
    assert_eq!(devices[0].addr.bits, 0xaabbccddeeff);
    assert_eq!(devices[0].search_timeout_secs, 10);
    assert_eq!(devices[1].kind, DeviceKind::TypeCSwitch);
    assert_eq!(devices[1].addr.bits, 0x010203040506);
    assert_eq!(devices[1].search_timeout_secs, 25);
}

#[test]
fn device_configs_reject_a_malformed_address() {
    let c = Config {
        stop_thresh: 600_000,
        start_thresh: 500_000,
        plugs: vec![
            PlugConfig {
                kind: DeviceKind::PlugMini,
                addr: "AA:BB:CC:DD:EE:FF".to_string(),
                search_timeout: 10,
            },
            PlugConfig {
                kind: DeviceKind::TypeCSwitch,
                addr: "not-an-address".to_string(),
                search_timeout: 10,
            },
        ],
    };
    assert!(c.device_configs().is_none());
}

#[test]
fn default_config_has_no_usable_address() {
    // The default entry's empty address parses as nothing: the user must
    // configure a real device before the scanner can look for one.
    let c = Config::default();
    assert!(c.device_configs().is_none());
}

#[test]
fn empty_device_list_yields_empty_scan_list() {
    let c = Config { stop_thresh: 600_000, start_thresh: 500_000, plugs: vec![] };
    let devices = c.device_configs().unwrap();
    assert!(devices.is_empty());
}
