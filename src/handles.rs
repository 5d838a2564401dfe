use vstd::prelude::*;
use idevice::amfi::AmfiClient;
use idevice::heartbeat::HeartbeatClient;
use idevice::os_trace_relay::{OsTraceRelayClient, OsTraceRelayReceiver};
use idevice::Idevice;

verus! {

#[verifier::external_type_specification]
#[verifier::external_body]
pub struct ExIdevice(Idevice);

#[verifier::external_type_specification]
#[verifier::external_body]
pub struct ExAmfiClient(AmfiClient);

#[verifier::external_type_specification]
#[verifier::external_body]
pub struct ExHeartbeatClient(HeartbeatClient);

#[verifier::external_type_specification]
#[verifier::external_body]
pub struct ExOsTraceRelayClient(OsTraceRelayClient);

#[verifier::external_type_specification]
#[verifier::external_body]
pub struct ExOsTraceRelayReceiver(OsTraceRelayReceiver);

/// Relies on `AmfiClient::new`: wraps an open connection, with no I/O.
pub assume_specification[ AmfiClient::new ](idevice: Idevice) -> AmfiClient;

/// Relies on `HeartbeatClient::new`: wraps an open connection, with no I/O.
pub assume_specification[ HeartbeatClient::new ](idevice: Idevice) -> HeartbeatClient;

// A handle owns its client outright and carries no liveness tag: using a
// handle after it was freed or consumed is ruled out by the safety contract of
// the C functions, not detected at run time.

/// An already-open connection to a device service; consumed when a client is
/// built around it.
pub struct IdeviceHandle(pub Idevice);

/// Owns one connected AMFI client.
pub struct AmfiClientHandle(pub AmfiClient);

/// Owns one connected heartbeat client.
pub struct HeartbeatClientHandle(pub HeartbeatClient);

/// Owns one connected trace relay client, until a trace is started on it.
pub struct OsTraceRelayClientHandle(pub OsTraceRelayClient);

/// Owns one running trace, from which log records are read.
pub struct OsTraceRelayReceiverHandle(pub OsTraceRelayReceiver);

/// Builds an AMFI client around an open connection, which it consumes.
pub fn amfi_client_new(socket: IdeviceHandle) -> (r: AmfiClientHandle) {
    AmfiClientHandle(AmfiClient::new(socket.0))
}

/// Builds a heartbeat client around an open connection, which it consumes.
pub fn heartbeat_client_new(socket: IdeviceHandle) -> (r: HeartbeatClientHandle) {
    HeartbeatClientHandle(HeartbeatClient::new(socket.0))
}

} // verus!
