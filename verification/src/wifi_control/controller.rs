use vstd::prelude::*;
use vstd::string::StringSliceAdditionalSpecFns;
use crate::wifi_control::bounded_text::{
    password_buffer, password_bytes, ssid_buffer, ssid_bytes, PASSWORD_CAPACITY, SSID_CAPACITY,
};
use crate::wifi_control::ip_text::{
    decimal, dotted_quad, ip_octets, lemma_dotted_quad_round_trip, lemma_split_nonempty,
    lemma_split_take, octet_value, parse_octet, split_dots, valid_ip_text, DOT,
};

verus! {

/// Radio mode of the Wi-Fi controller.
#[derive(Debug, Clone, Copy, PartialEq, Eq, Structural)]
pub enum WifiMode {
    /// Station only: joins an existing network.
    Sta,
    /// Access point only: offers a network of its own.
    Ap,
    /// Access point and station at once.
    ApSta,
}

/// A failure of the Wi-Fi driver itself.
#[derive(Debug, Clone, Copy, PartialEq, Eq, Structural)]
pub enum DriverFailure {
    /// The driver was used before it was initialised.
    NotInitialized,
    /// The radio firmware reported the error with this code.
    Internal(i32),
    /// The CPU clock is not the one the radio needs.
    WrongClockConfig,
    /// The station is not connected.
    Disconnected,
    /// The radio is in a mode it does not know.
    UnknownWifiMode,
}

/// Why the radio driver could not be initialised.
#[derive(Debug, Clone, Copy, PartialEq, Eq, Structural)]
pub enum InitFailure {
    /// A general failure, with its code.
    General(i32),
    /// A failure of the Wi-Fi driver.
    Wifi(DriverFailure),
    /// The CPU clock is not the one the radio needs.
    WrongClockConfig,
}

/// Errors of the Wi-Fi bring-up.
#[derive(Debug, Clone, Copy, PartialEq, Eq, Structural)]
pub enum WifiControllerError {
    /// Connecting needs the AP_STA or STA mode.
    NotStationMode,
    /// The radio driver failed to initialise, for the reason held.
    WifiInitError(InitFailure),
    /// Access-point-only mode cannot join a network.
    WifiConnectionInAP,
}

/// How a controller joins a network, by its mode.
#[derive(Debug, Clone, Copy, PartialEq, Eq, Structural)]
pub enum ConnectionRoute {
    /// Join as a plain station.
    Station,
    /// Offer the access point and join as a station at once.
    AccessPointAndStation,
}

/// Credentials and mode of the device's Wi-Fi.
pub struct WifiController<'a> {
    pub ssid: &'a str,
    pub password: &'a str,
    pub mode: WifiMode,
}

/// The route a mode takes: station modes connect, access-point-only mode is refused.
pub open spec fn route_for(mode: WifiMode) -> Result<ConnectionRoute, WifiControllerError> {
    match mode {
        WifiMode::Sta => Ok(ConnectionRoute::Station),
        WifiMode::Ap => Err(WifiControllerError::WifiConnectionInAP),
        WifiMode::ApSta => Ok(ConnectionRoute::AccessPointAndStation),
    }
}

impl<'a> WifiController<'a> {
    pub fn new(ssid: &'a str, password: &'a str, mode: WifiMode) -> (r: WifiController<'a>)
        ensures
            r.ssid == ssid,
            r.password == password,
            r.mode == mode,
    {
        WifiController { ssid, password, mode }
    }

    /// Decides how `connect_to_wifi` proceeds for this controller's mode.
    pub fn connection_route(&self) -> (r: Result<ConnectionRoute, WifiControllerError>)
        ensures
            r == route_for(self.mode),
    {
        match self.mode {
            WifiMode::Sta => Ok(ConnectionRoute::Station),
            WifiMode::Ap => Err(WifiControllerError::WifiConnectionInAP),
            WifiMode::ApSta => Ok(ConnectionRoute::AccessPointAndStation),
        }
    }

    /// The network name and password in the fixed-capacity buffers of the
    /// station configuration. Each must fit its buffer.
    pub fn station_credentials(&self) -> (r: (heapless::String<32>, heapless::String<64>))
        requires
            self.ssid.spec_bytes().len() <= SSID_CAPACITY,
            self.password.spec_bytes().len() <= PASSWORD_CAPACITY,
        ensures
            ssid_bytes(r.0) == self.ssid.spec_bytes(),
            password_bytes(r.1) == self.password.spec_bytes(),
    {
        let ssid = match ssid_buffer(self.ssid) {
            Ok(s) => s,
            Err(_) => vstd::pervasive::unreached(),
        };
        let password = match password_buffer(self.password) {
            Ok(p) => p,
            Err(_) => vstd::pervasive::unreached(),
        };
        (ssid, password)
    }

    /// Reads a dotted-decimal address such as `192.168.2.1` into its four
    /// octets; fields that the text lacks are 0.
    pub fn parse_ip(ip: &str) -> (r: [u8; 4])
        requires
            valid_ip_text(ip.spec_bytes()),
        ensures
            r@ == ip_octets(ip.spec_bytes()),
    {
        let b = ip.as_bytes();
        let n = b.len();
        let ghost f = split_dots(b@);
        let mut vals: Vec<u8> = Vec::new();
        let mut start: usize = 0;
        let mut i: usize = 0;
        proof {
            lemma_split_nonempty(b@);
            assert(b@.take(0) =~= Seq::<u8>::empty());
            assert(b@.subrange(0, 0) =~= Seq::<u8>::empty());
        }
        while i < n
            invariant
                b@ == ip.spec_bytes(),
                n == b@.len(),
                f == split_dots(b@),
                valid_ip_text(b@),
                0 <= start <= i <= n,
                split_dots(b@.take(i as int)).len() == vals@.len() + 1,
                split_dots(b@.take(i as int)).last() == b@.subrange(start as int, i as int),
                forall|k: int| 0 <= k < vals@.len() ==> #[trigger] vals@[k] == octet_value(f[k]),
            decreases n - i,
        {
            proof {
                lemma_split_take(b@, i as int + 1);
                assert(b@.take(i as int + 1).drop_last() =~= b@.take(i as int));
            }
            if b[i] == DOT {
                proof {
                    let p = split_dots(b@.take(i as int));
                    let q = split_dots(b@.take(i as int + 1));
                    assert(q[vals@.len() as int] == p.last());
                    assert(f[vals@.len() as int] == p.last());
                    assert(f[vals@.len() as int] == b@.subrange(start as int, i as int));
                }
                let v = parse_octet(b, start, i);
                vals.push(v);
                start = i + 1;
                proof {
                    assert(b@.subrange(start as int, start as int) =~= Seq::<u8>::empty());
                }
            } else {
                proof {
                    assert(b@.subrange(start as int, i as int + 1) =~= b@.subrange(
                        start as int,
                        i as int,
                    ).push(b@[i as int]));
                }
            }
            i = i + 1;
        }
        proof {
            assert(b@.take(n as int) =~= b@);
        }
        let v = parse_octet(b, start, n);
        vals.push(v);
        let o0 = if 0 < vals.len() { vals[0] } else { 0 };
        let o1 = if 1 < vals.len() { vals[1] } else { 0 };
        let o2 = if 2 < vals.len() { vals[2] } else { 0 };
        let o3 = if 3 < vals.len() { vals[3] } else { 0 };
        let r = [o0, o1, o2, o3];
        assert(r@ =~= ip_octets(b@));
        r
    }
}

/// Port on which the access point serves its page.
pub const ACCESS_POINT_PORT: u16 = 8080;

/// Length of the network prefix of the access point's subnet.
pub const ACCESS_POINT_PREFIX_LEN: u8 = 24;

/// Fixed addressing of the access point interface.
#[derive(Debug, Clone, Copy)]
pub struct AccessPointNetwork {
    pub address: [u8; 4],
    pub gateway: [u8; 4],
    pub prefix_len: u8,
}

/// The access point's own address, which is also the gateway of its subnet:
/// `192.168.2.1/24`.
pub fn access_point_network() -> (r: AccessPointNetwork)
    ensures
        r.address@ == seq![192u8, 168u8, 2u8, 1u8],
        r.gateway@ == seq![192u8, 168u8, 2u8, 1u8],
        r.prefix_len == 24,
{
    let text = "192.168.2.1";
    proof {
        reveal_strlit("192.168.2.1");
        broadcast use vstd::string::group_string_axioms;
        assert(text@ =~= seq!['1', '9', '2', '.', '1', '6', '8', '.', '2', '.', '1']);
        assert(vstd::string::is_ascii(text));
        let b = text.spec_bytes();
        assert(b =~= seq![0x31u8, 0x39, 0x32, 0x2e, 0x31, 0x36, 0x38, 0x2e, 0x32, 0x2e, 0x31]);
        reveal_with_fuel(decimal, 3);
        assert(b =~= dotted_quad(seq![192u8, 168u8, 2u8, 1u8]));
        lemma_dotted_quad_round_trip(seq![192u8, 168u8, 2u8, 1u8]);
        assert(valid_ip_text(b));
    }
    let address = WifiController::parse_ip(text);
    let gateway = WifiController::parse_ip(text);
    AccessPointNetwork { address, gateway, prefix_len: ACCESS_POINT_PREFIX_LEN }
}

/// The bytes of the access point's network name, `esp-wifi`.
pub open spec fn access_point_ssid_bytes() -> Seq<u8> {
    seq![0x65u8, 0x73, 0x70, 0x2d, 0x77, 0x69, 0x66, 0x69]
}

/// The access point's network name, `esp-wifi`, in a network-name buffer.
pub fn access_point_ssid() -> (r: heapless::String<32>)
    ensures
        ssid_bytes(r) == access_point_ssid_bytes(),
{
    let name = "esp-wifi";
    proof {
        reveal_strlit("esp-wifi");
        broadcast use vstd::string::group_string_axioms;
        assert(name@ =~= seq!['e', 's', 'p', '-', 'w', 'i', 'f', 'i']);
        assert(vstd::string::is_ascii(name));
        assert(name.spec_bytes() =~= access_point_ssid_bytes());
    }
    match ssid_buffer(name) {
        Ok(s) => s,
        Err(_) => vstd::pervasive::unreached(),
    }
}

} // verus!
