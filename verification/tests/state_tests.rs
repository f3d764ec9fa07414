use esp32_devkit_v1::ble_state::{BleState, ConnState};
use esp32_devkit_v1::config::BleConfig;

#[test]
fn conn_state_codes_round_trip() {
    for state in [
        ConnState::Idle,
        ConnState::Pairing,
        ConnState::Connected,
        ConnState::Disconnected,
        ConnState::Error,
    ] {
        assert_eq!(ConnState::from(state.to_u8()), state);
    }
}

#[test]
fn conn_state_unknown_codes_decode_to_idle() {
    assert_eq!(ConnState::from(7), ConnState::Idle);
    assert_eq!(ConnState::from(42), ConnState::Idle);
    assert_eq!(ConnState::from(254), ConnState::Idle);
}

#[test]
fn conn_state_known_codes() {
    assert_eq!(ConnState::from(0), ConnState::Idle);
    assert_eq!(ConnState::from(1), ConnState::Pairing);
    assert_eq!(ConnState::from(2), ConnState::Connected);
    assert_eq!(ConnState::from(3), ConnState::Disconnected);
    assert_eq!(ConnState::from(255), ConnState::Error);
}

#[test]
fn ble_state_codes_round_trip() {
    for state in [
        BleState::Idle,
        BleState::Advertising,
        BleState::Connected,
        BleState::Disconnected,
        BleState::Error,
    ] {
        assert_eq!(BleState::from(state.to_u8()), state);
    }
}

#[test]
fn ble_state_unknown_codes_decode_to_idle() {
    assert_eq!(BleState::from(9), BleState::Idle);
    assert_eq!(BleState::from(128), BleState::Idle);
}

#[test]
fn advertised_identity_is_fixed() {
    assert_eq!(BleConfig::service_uuid(), "9b574847-f706-436c-bed7-fc01eb0965c1");
    assert_eq!(BleConfig::characteristic_uuid(), "681285a6-247f-48c6-80ad-68c3dce18585");
    assert_eq!(BleConfig::device_name(), "esp32-devkit-v1");
}
