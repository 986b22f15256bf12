use tauri_plugin_androidwifi::dispatch::Operation;

const ALL_OPERATIONS: [Operation; 8] = [
    Operation::GetWifiDetails,
    Operation::ConnectWifi,
    Operation::GetCurrentWifiDetails,
    Operation::GetMacAddress,
    Operation::GetGatewayIp,
    Operation::MarkCaptivePortalDismissed,
    Operation::DetectTollgate,
    Operation::GetNetworkStatus,
];

#[test]
fn method_names_are_the_native_contract() {
    assert_eq!(Operation::GetWifiDetails.method_name(), "getWifiDetails");
    assert_eq!(Operation::ConnectWifi.method_name(), "connectWifi");
    assert_eq!(Operation::GetCurrentWifiDetails.method_name(), "getCurrentWifiDetails");
    assert_eq!(Operation::GetMacAddress.method_name(), "getMacAddress");
    assert_eq!(Operation::GetGatewayIp.method_name(), "getGatewayIp");
    assert_eq!(Operation::MarkCaptivePortalDismissed.method_name(), "markCaptivePortalDismissed");
    assert_eq!(Operation::DetectTollgate.method_name(), "detectTollgate");
    assert_eq!(Operation::GetNetworkStatus.method_name(), "getNetworkStatus");
}

#[test]
fn method_names_never_collide() {
    for (i, a) in ALL_OPERATIONS.iter().enumerate() {
        for (j, b) in ALL_OPERATIONS.iter().enumerate() {
            if i != j {
                assert_ne!(a.method_name(), b.method_name());
            }
        }
    }
}

#[test]
fn only_the_network_status_check_is_asynchronous() {
    for op in ALL_OPERATIONS.iter() {
        assert_eq!(op.is_asynchronous(), *op == Operation::GetNetworkStatus);
    }
}
