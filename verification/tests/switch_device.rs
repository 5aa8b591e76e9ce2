use sbchargelimit::codec::{
    SetStateOperation, PLUG_MINI_CHR_RX_UUID, PLUG_MINI_CHR_TX_UUID, PLUG_MINI_SVC_UUID,
    TYPE_C_CHR_STATE_UUID, TYPE_C_SVC_UUID,
};
use sbchargelimit::errors::DeviceError;
use sbchargelimit::switch_device::plug_mini::{filter_notification, PlugMini};
use sbchargelimit::switch_device::type_c_switch::TypeCSwitch;
use sbchargelimit::switch_device::{find_service, service_has_char, GattService, SwitchDevice};

fn plug_mini_services() -> Vec<GattService> {
    vec![
        GattService { uuid: 0x1800, characteristics: vec![0x2a00] },
        GattService {
            uuid: PLUG_MINI_SVC_UUID,
            characteristics: vec![PLUG_MINI_CHR_RX_UUID, PLUG_MINI_CHR_TX_UUID],
        },
    ]
}

fn type_c_services() -> Vec<GattService> {
    vec![GattService { uuid: TYPE_C_SVC_UUID, characteristics: vec![TYPE_C_CHR_STATE_UUID] }]
}

#[test]
fn find_service_returns_first_position() {
    let services = plug_mini_services();
    assert_eq!(find_service(&services, PLUG_MINI_SVC_UUID), Some(1));
    assert_eq!(find_service(&services, 0x1800), Some(0));
    assert_eq!(find_service(&services, TYPE_C_SVC_UUID), None);
}

#[test]
fn service_has_char_scans_characteristics() {
    let services = plug_mini_services();
    assert!(service_has_char(&services[1], PLUG_MINI_CHR_TX_UUID));
    assert!(!service_has_char(&services[1], TYPE_C_CHR_STATE_UUID));
}

#[test]
fn plug_mini_connects_when_service_and_chars_present() {
    let mut plug = PlugMini::new();
    assert_eq!(plug.connect_with(&plug_mini_services()), Ok(()));
    assert!(plug.is_connected(true));
    // A transport link that is down means not connected despite initialization.
    assert!(!plug.is_connected(false));
}

#[test]
fn plug_mini_missing_service_is_service_not_found() {
    let mut plug = PlugMini::new();
    let services = vec![GattService { uuid: 0x1800, characteristics: vec![] }];
    assert_eq!(
        plug.connect_with(&services),
        Err(DeviceError::ServiceNotFound)
    );
    assert!(!plug.is_connected(true));
}

#[test]
fn plug_mini_missing_characteristic_is_characteristic_not_found() {
    let mut plug = PlugMini::new();
    let missing_tx = vec![GattService {
        uuid: PLUG_MINI_SVC_UUID,
        characteristics: vec![PLUG_MINI_CHR_RX_UUID],
    }];
    assert_eq!(
        plug.connect_with(&missing_tx),
        Err(DeviceError::CharacteristicNotFound)
    );
    let missing_rx = vec![GattService {
        uuid: PLUG_MINI_SVC_UUID,
        characteristics: vec![PLUG_MINI_CHR_TX_UUID],
    }];
    assert_eq!(
        plug.connect_with(&missing_rx),
        Err(DeviceError::CharacteristicNotFound)
    );
}

#[test]
fn plug_mini_binds_first_matching_service() {
    // Two services carry the Plug Mini UUID; the first one lacks the
    // characteristics, and the driver binds to the first, so connecting fails.
    let mut plug = PlugMini::new();
    let services = vec![
        GattService { uuid: PLUG_MINI_SVC_UUID, characteristics: vec![] },
        GattService {
            uuid: PLUG_MINI_SVC_UUID,
            characteristics: vec![PLUG_MINI_CHR_RX_UUID, PLUG_MINI_CHR_TX_UUID],
        },
    ];
    assert_eq!(
        plug.connect_with(&services),
        Err(DeviceError::CharacteristicNotFound)
    );
}

#[test]
fn plug_mini_rejects_requests_before_connect() {
    let mut plug = PlugMini::new();
    assert_eq!(
        plug.set_on_off_request(true),
        Err(DeviceError::DeviceNotConnected)
    );
    assert_eq!(
        plug.set_state_request(&SetStateOperation::Toggle),
        Err(DeviceError::DeviceNotConnected)
    );
}

#[test]
fn plug_mini_request_response_cycle() {
    let mut plug = PlugMini::new();
    plug.connect_with(&plug_mini_services()).unwrap();
    let request = plug.set_on_off_request(true).unwrap();
    assert_eq!(request, vec![0x57, 0x0f, 0x50, 0x01, 0x01, 0x80]);
    let reported = plug.set_state_response(Some(vec![0x01, 0x80]));
    assert_eq!(reported, Ok(true));
    // The response consumed, the next request may be issued.
    let request = plug.set_on_off_request(false).unwrap();
    assert_eq!(request, vec![0x57, 0x0f, 0x50, 0x01, 0x01, 0x00]);
    let reported = plug.set_state_response(Some(vec![0x01, 0x00]));
    assert_eq!(reported, Ok(false));
}

#[test]
fn plug_mini_closed_conduit_is_channel_closed() {
    let mut plug = PlugMini::new();
    plug.connect_with(&plug_mini_services()).unwrap();
    plug.set_state_request(&SetStateOperation::TurnOn).unwrap();
    assert_eq!(
        plug.set_state_response(None),
        Err(DeviceError::ChannelClosed)
    );
}

#[test]
fn plug_mini_malformed_response_is_protocol_error() {
    let mut plug = PlugMini::new();
    plug.connect_with(&plug_mini_services()).unwrap();
    plug.set_on_off_request(true).unwrap();
    assert_eq!(
        plug.set_state_response(Some(vec![0x02, 0x80])),
        Err(DeviceError::ProtocolError)
    );
}

#[test]
fn plug_mini_disconnect_drops_initialization() {
    let mut plug = PlugMini::new();
    plug.connect_with(&plug_mini_services()).unwrap();
    plug.disconnect();
    assert!(!plug.is_connected(true));
    assert_eq!(
        plug.set_on_off_request(true),
        Err(DeviceError::DeviceNotConnected)
    );
}

#[test]
fn notification_filter_keeps_only_response_characteristic() {
    assert_eq!(
        filter_notification(PLUG_MINI_CHR_TX_UUID, vec![0x01, 0x80]),
        Some(vec![0x01, 0x80])
    );
    assert_eq!(filter_notification(PLUG_MINI_CHR_RX_UUID, vec![0x01, 0x80]), None);
    assert_eq!(filter_notification(0x1800, vec![]), None);
}

#[test]
fn type_c_connects_when_state_characteristic_present() {
    let mut switch = TypeCSwitch::new();
    assert_eq!(switch.connect_with(&type_c_services()), Ok(()));
    assert!(switch.is_connected(true));
    assert!(!switch.is_connected(false));
}

#[test]
fn type_c_missing_service_is_service_not_found() {
    let mut switch = TypeCSwitch::new();
    assert_eq!(
        switch.connect_with(&plug_mini_services()),
        Err(DeviceError::ServiceNotFound)
    );
}

#[test]
fn type_c_missing_characteristic_is_characteristic_not_found() {
    let mut switch = TypeCSwitch::new();
    let services = vec![GattService { uuid: TYPE_C_SVC_UUID, characteristics: vec![] }];
    assert_eq!(
        switch.connect_with(&services),
        Err(DeviceError::CharacteristicNotFound)
    );
}

#[test]
fn type_c_requests_single_state_byte() {
    let mut switch = TypeCSwitch::new();
    switch.connect_with(&type_c_services()).unwrap();
    assert_eq!(switch.set_on_off_request(true), Ok(vec![1]));
    assert_eq!(switch.set_on_off_request(false), Ok(vec![0]));
}

#[test]
fn type_c_rejects_requests_before_connect() {
    let mut switch = TypeCSwitch::new();
    assert_eq!(
        switch.set_on_off_request(true),
        Err(DeviceError::DeviceNotConnected)
    );
}

#[test]
fn type_c_disconnect_drops_initialization() {
    let mut switch = TypeCSwitch::new();
    switch.connect_with(&type_c_services()).unwrap();
    switch.disconnect();
    assert!(!switch.is_connected(true));
}
