use vstd::prelude::*;

verus! {

/// The operations the facade offers, one per native plugin method.
///
/// Each operation dispatches to a fixed string method name on the native
/// side; that name and the payload and response shapes paired with it are a
/// contract with the native implementation and must remain stable.
#[derive(Clone, Copy, Debug, PartialEq, Eq, Structural)]
pub enum Operation {
    GetWifiDetails,
    ConnectWifi,
    GetCurrentWifiDetails,
    GetMacAddress,
    GetGatewayIp,
    MarkCaptivePortalDismissed,
    DetectTollgate,
    GetNetworkStatus,
}

impl Operation {
    /// The native method name this operation dispatches to.
    pub open spec fn method_name_spec(self) -> Seq<char> {
        match self {
            Operation::GetWifiDetails => "getWifiDetails"@,
            Operation::ConnectWifi => "connectWifi"@,
            Operation::GetCurrentWifiDetails => "getCurrentWifiDetails"@,
            Operation::GetMacAddress => "getMacAddress"@,
            Operation::GetGatewayIp => "getGatewayIp"@,
            Operation::MarkCaptivePortalDismissed => "markCaptivePortalDismissed"@,
            Operation::DetectTollgate => "detectTollgate"@,
            Operation::GetNetworkStatus => "getNetworkStatus"@,
        }
    }

    /// The native method name, as the dispatch layer sends it.
    pub fn method_name(&self) -> (r: &'static str)
        ensures
            r@ == self.method_name_spec(),
    {
        match self {
            Operation::GetWifiDetails => "getWifiDetails",
            Operation::ConnectWifi => "connectWifi",
            Operation::GetCurrentWifiDetails => "getCurrentWifiDetails",
            Operation::GetMacAddress => "getMacAddress",
            Operation::GetGatewayIp => "getGatewayIp",
            Operation::MarkCaptivePortalDismissed => "markCaptivePortalDismissed",
            Operation::DetectTollgate => "detectTollgate",
            Operation::GetNetworkStatus => "getNetworkStatus",
        }
    }

    /// Whether the operation is the one the facade runs on a worker instead
    /// of the calling context.
    pub fn is_asynchronous(&self) -> (r: bool)
        ensures
            r == (*self is GetNetworkStatus),
    {
        match self {
            Operation::GetNetworkStatus => true,
            _ => false,
        }
    }
}

/// Law: distinct operations dispatch to distinct native method names, so no
/// two entries of the typed surface can drift onto one native endpoint.
pub proof fn lemma_method_names_injective(a: Operation, b: Operation)
    ensures
        a.method_name_spec() == b.method_name_spec() ==> a == b,
{
    reveal_strlit("getWifiDetails");
    reveal_strlit("connectWifi");
    reveal_strlit("getCurrentWifiDetails");
    reveal_strlit("getMacAddress");
    reveal_strlit("getGatewayIp");
    reveal_strlit("markCaptivePortalDismissed");
    reveal_strlit("detectTollgate");
    reveal_strlit("getNetworkStatus");
    assert("getWifiDetails"@.len() == 14);
    assert("connectWifi"@.len() == 11);
    assert("getCurrentWifiDetails"@.len() == 21);
    assert("getMacAddress"@.len() == 13);
    assert("getGatewayIp"@.len() == 12);
    assert("markCaptivePortalDismissed"@.len() == 26);
    assert("detectTollgate"@.len() == 14);
    assert("getNetworkStatus"@.len() == 16);
    assert("getWifiDetails"@[0] != "detectTollgate"@[0]);
}

} // verus!
