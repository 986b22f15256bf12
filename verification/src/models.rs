use vstd::prelude::*;

verus! {

/// Marker payload for the operations that take no arguments.
#[derive(Clone, Copy, Debug, PartialEq, Eq)]
pub struct Empty {}

/// One Wi-Fi network as the native layer reports it.
#[derive(Clone, Debug, PartialEq, Eq)]
pub struct WifiNetwork {
    pub ssid: String,
    pub bssid: String,
    /// Received signal strength, in dBm.
    pub rssi: i32,
    /// Channel frequency, in MHz.
    pub frequency: i32,
}

/// Response of the scan operation: every network the native layer saw.
#[derive(Clone, Debug, PartialEq, Eq)]
pub struct WifiDetailsResponse {
    pub wifis: Vec<WifiNetwork>,
}

/// Credentials for the connect operation.
#[derive(Clone, Debug, PartialEq, Eq)]
pub struct ConnectWifiPayload {
    pub ssid: String,
    /// `None` for an open network.
    pub password: Option<String>,
}

/// Response of the connect operation.
#[derive(Clone, Debug, PartialEq, Eq)]
pub struct ConnectWifiResponse {
    pub connected: bool,
}

/// Response of the current-connection query.
#[derive(Clone, Debug, PartialEq, Eq)]
pub struct CurrentWifiResponse {
    /// `None` when no network is currently joined.
    pub wifi: Option<WifiNetwork>,
}

/// Parameters of the MAC-address query.
#[derive(Clone, Debug, PartialEq, Eq)]
pub struct GetMacAddressPayload {
    /// Name of the interface whose hardware address is asked for.
    pub interface: String,
}

/// Response of the MAC-address query, and of the captive-portal
/// acknowledgement, which the native surface answers in the same shape.
#[derive(Clone, Debug, PartialEq, Eq)]
pub struct MacAddressResponse {
    pub mac: String,
}

/// Response of the gateway-address query.
#[derive(Clone, Debug, PartialEq, Eq)]
pub struct GatewayIpResponse {
    pub gateway_ip: String,
}

/// Response of the asynchronous network-status check.
#[derive(Clone, Debug, PartialEq, Eq)]
pub struct NetworkStatusResponse {
    pub connected: bool,
    pub captive_portal: bool,
}

/// Response of the tollgate probe: whether the joined network demands
/// additional authentication before granting full access.
#[derive(Clone, Debug, PartialEq, Eq)]
pub struct TollgateDetectionResponse {
    pub detected: bool,
}

} // verus!
