use garden_wifi::wifi_control::controller::{
    access_point_network, access_point_ssid, ConnectionRoute, DriverFailure, InitFailure, WifiController,
    WifiControllerError, WifiMode, ACCESS_POINT_PORT, ACCESS_POINT_PREFIX_LEN,
};

#[test]
fn new_keeps_its_arguments() {
    let c = WifiController::new("garden", "secret", WifiMode::Sta);
    assert_eq!(c.ssid, "garden");
    assert_eq!(c.password, "secret");
    assert_eq!(c.mode, WifiMode::Sta);
}

#[test]
fn station_modes_connect() {
    let sta = WifiController::new("a", "b", WifiMode::Sta);
    assert_eq!(sta.connection_route(), Ok(ConnectionRoute::Station));
    let apsta = WifiController::new("a", "b", WifiMode::ApSta);
    assert_eq!(apsta.connection_route(), Ok(ConnectionRoute::AccessPointAndStation));
}

#[test]
fn access_point_mode_is_refused() {
    let ap = WifiController::new("a", "b", WifiMode::Ap);
    assert_eq!(ap.connection_route(), Err(WifiControllerError::WifiConnectionInAP));
}

#[test]
fn parse_ip_reads_four_octets() {
    assert_eq!(WifiController::parse_ip("192.168.2.1"), [192, 168, 2, 1]);
    assert_eq!(WifiController::parse_ip("0.0.0.0"), [0, 0, 0, 0]);
    assert_eq!(WifiController::parse_ip("255.255.255.255"), [255, 255, 255, 255]);
}

#[test]
fn parse_ip_accepts_plus_signs_and_leading_zeros() {
    assert_eq!(WifiController::parse_ip("+10.007.0255.+0"), [10, 7, 255, 0]);
}

#[test]
fn parse_ip_fills_missing_octets_with_zero() {
    assert_eq!(WifiController::parse_ip("10.1"), [10, 1, 0, 0]);
    assert_eq!(WifiController::parse_ip("7"), [7, 0, 0, 0]);
}

#[test]
fn access_point_addressing() {
    let net = access_point_network();
    assert_eq!(net.address, [192, 168, 2, 1]);
    assert_eq!(net.gateway, [192, 168, 2, 1]);
    assert_eq!(net.prefix_len, 24);
    assert_eq!(ACCESS_POINT_PREFIX_LEN, 24);
    assert_eq!(ACCESS_POINT_PORT, 8080);
}

#[test]
fn access_point_name() {
    assert_eq!(access_point_ssid().as_str(), "esp-wifi");
}

#[test]
fn station_credentials_copy_the_texts() {
    let c = WifiController::new("my-garden-net", "hunter22", WifiMode::Sta);
    let (ssid, password) = c.station_credentials();
    assert_eq!(ssid.as_str(), "my-garden-net");
    assert_eq!(password.as_str(), "hunter22");
}

#[test]
fn station_credentials_at_full_capacity() {
    let long_ssid = "s".repeat(32);
    let long_password = "p".repeat(64);
    let c = WifiController::new(&long_ssid, &long_password, WifiMode::ApSta);
    let (ssid, password) = c.station_credentials();
    assert_eq!(ssid.as_str(), long_ssid);
    assert_eq!(password.as_str(), long_password);
}

#[test]
fn init_error_keeps_its_cause() {
    let e = WifiControllerError::WifiInitError(InitFailure::Wifi(DriverFailure::Internal(0x3001)));
    match e {
        WifiControllerError::WifiInitError(InitFailure::Wifi(DriverFailure::Internal(code))) => {
            assert_eq!(code, 0x3001)
        }
        _ => panic!("cause lost"),
    }
    assert_ne!(
        WifiControllerError::WifiInitError(InitFailure::General(1)),
        WifiControllerError::WifiInitError(InitFailure::WrongClockConfig)
    );
}
