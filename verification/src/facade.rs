use vstd::prelude::*;

use crate::dispatch::Operation;
use crate::error::Error;
use crate::models::ConnectWifiPayload;
use crate::models::Empty;
use crate::models::GetMacAddressPayload;
use crate::models::NetworkStatusResponse;

verus! {

/// A dispatch-ready native call: the operation to invoke, and the caller's
/// payload, passed through without validation or transformation.
#[derive(Clone, Debug, PartialEq, Eq)]
pub struct NativeCall<P> {
    pub operation: Operation,
    pub payload: P,
}

/// What the facade makes of a native outcome: a response is handed back
/// exactly as it came, a dispatch failure becomes the uniform error carrying
/// the failure's own description.
pub open spec fn completed<T>(outcome: Result<T, String>) -> Result<T, Error> {
    match outcome {
        Ok(response) => Ok(response),
        Err(message) => Err(Error { message }),
    }
}

/// Settle a native outcome into the result the host application sees.
///
/// A successful native response is returned unchanged, whatever the
/// operation; a native dispatch failure is returned as the uniform error,
/// never swallowed and never a panic.
pub fn complete_native_call<T>(outcome: Result<T, String>) -> (r: Result<T, Error>)
    ensures
        r == completed(outcome),
        outcome matches Ok(response) ==> r == Ok::<T, Error>(response),
        outcome matches Err(message) ==> (r matches Err(e) && e.message == message),
{
    match outcome {
        Ok(response) => Ok(response),
        Err(message) => Err(Error::new(message)),
    }
}

/// Message of the uniform error surfaced when the network-status worker
/// cannot run to completion.
pub open spec fn network_status_failure_message() -> Seq<char> {
    "Failed to execute network status check"@
}

/// Settle the asynchronous network-status check from its worker's fate.
///
/// `worker` is `Some` with the settled result when the worker ran to
/// completion, and `None` when it was aborted or panicked before finishing.
/// A completed worker's result is handed back exactly; a worker that never
/// finished becomes the uniform error with a descriptive message, not a
/// scheduler-internal failure type.
pub fn resolve_network_status(
    worker: Option<Result<NetworkStatusResponse, Error>>,
) -> (r: Result<NetworkStatusResponse, Error>)
    ensures
        worker matches Some(outcome) ==> r == outcome,
        worker is None ==> (r matches Err(e) && e.message@ == network_status_failure_message()),
{
    match worker {
        Some(outcome) => outcome,
        None => Err(Error::new("Failed to execute network status check".to_owned())),
    }
}

/// The facade's entire state between calls: nothing.  Every operation is
/// independent; the only thing shared is the immutable plugin handle, which
/// this layer never mutates.
pub struct FacadeState {}

/// One call of the facade as a state transition: the state is returned
/// untouched and the result is a function of the call's own outcome alone.
pub open spec fn facade_step<T>(s: FacadeState, outcome: Result<T, String>) -> (
    FacadeState,
    Result<T, Error>,
) {
    (s, completed(outcome))
}

/// Law: two operations run from independent contexts cannot interfere.
/// Settling outcome `a` and then outcome `b` leaves the same final state and
/// gives each call the same result as settling them in the other order, so
/// concurrent calls agree with any sequential ordering.
pub proof fn lemma_concurrent_calls_commute<T, U>(
    s: FacadeState,
    a: Result<T, String>,
    b: Result<U, String>,
)
    ensures
        ({
            let first_a = facade_step::<T>(s, a);
            let then_b = facade_step::<U>(first_a.0, b);
            let first_b = facade_step::<U>(s, b);
            let then_a = facade_step::<T>(first_b.0, a);
            &&& first_a.1 == then_a.1
            &&& then_b.1 == first_b.1
            &&& then_b.0 == then_a.0
        }),
{
}

/// Build the native call of the scan operation.
pub fn get_wifi_details_request(payload: Empty) -> (call: NativeCall<Empty>)
    ensures
        call.operation == Operation::GetWifiDetails,
        call.payload == payload,
{
    NativeCall { operation: Operation::GetWifiDetails, payload }
}

/// Build the native call of the connect operation.
pub fn connect_wifi_request(payload: ConnectWifiPayload) -> (call: NativeCall<ConnectWifiPayload>)
    ensures
        call.operation == Operation::ConnectWifi,
        call.payload == payload,
{
    NativeCall { operation: Operation::ConnectWifi, payload }
}

/// Build the native call of the current-connection query.
pub fn get_current_wifi_details_request(payload: Empty) -> (call: NativeCall<Empty>)
    ensures
        call.operation == Operation::GetCurrentWifiDetails,
        call.payload == payload,
{
    NativeCall { operation: Operation::GetCurrentWifiDetails, payload }
}

/// Build the native call of the MAC-address query.
pub fn get_mac_address_request(payload: GetMacAddressPayload) -> (call: NativeCall<
    GetMacAddressPayload,
>)
    ensures
        call.operation == Operation::GetMacAddress,
        call.payload == payload,
{
    NativeCall { operation: Operation::GetMacAddress, payload }
}

/// Build the native call of the gateway-address query.
pub fn get_gateway_ip_request(payload: Empty) -> (call: NativeCall<Empty>)
    ensures
        call.operation == Operation::GetGatewayIp,
        call.payload == payload,
{
    NativeCall { operation: Operation::GetGatewayIp, payload }
}

/// Build the native call of the captive-portal acknowledgement.
pub fn mark_captive_portal_dismissed_request(payload: Empty) -> (call: NativeCall<Empty>)
    ensures
        call.operation == Operation::MarkCaptivePortalDismissed,
        call.payload == payload,
{
    NativeCall { operation: Operation::MarkCaptivePortalDismissed, payload }
}

/// Build the native call of the tollgate probe.
pub fn detect_tollgate_request(payload: Empty) -> (call: NativeCall<Empty>)
    ensures
        call.operation == Operation::DetectTollgate,
        call.payload == payload,
{
    NativeCall { operation: Operation::DetectTollgate, payload }
}

/// Build the native call of the network-status check, the one operation the
/// facade dispatches on a worker.
pub fn get_network_status_request(payload: Empty) -> (call: NativeCall<Empty>)
    ensures
        call.operation == Operation::GetNetworkStatus,
        call.payload == payload,
{
    NativeCall { operation: Operation::GetNetworkStatus, payload }
}

} // verus!
