//! One method for each operation of the API. A method says what to send;
//! sending it, and fetching the answer, is up to the caller, who hands the
//! answer to [`Request::conclude`] or [`Request::execute`].

use crate::api::endpoint::{target, Operation};
use crate::api::error::Error;
use crate::api::request::{is_success, reply, Call, Method, Reply, Request, RequestView};
use crate::codec::Model;
use crate::json::{json_text, Json, JsonV};
use crate::models::{
    Balloon, BalloonStats, BalloonStatsUpdate, BalloonUpdate, BootSource, CpuConfig, Drive,
    EntropyDevice, FirecrackerVersion, FullVmConfiguration, InstanceActionInfo, InstanceInfo,
    Logger, MachineConfiguration, Metrics, MmdsConfig, NetworkInterface, PartialDrive,
    PartialNetworkInterface, SnapshotCreateParams, SnapshotLoadParams, Vm, Vsock,
};
use vstd::prelude::*;
use vstd::string::StringSliceAdditionalSpecFns;

verus! {

/// The request that carries out an operation: the operation's verb, its
/// target with the identifier percent-encoded, and the JSON text of the body
/// where there is one. The answer is read only where the operation is a
/// `GET`.
pub open spec fn prepared(op: Operation, id: Seq<u8>, body: Option<JsonV>) -> RequestView {
    RequestView {
        method: op.method(),
        path: target(op, id),
        no_return_type: op.method() != Method::Get,
        body: match body {
            Some(j) => Some(json_text(j)),
            None => None,
        },
    }
}

/// What a method that sends a body returns: the prepared request, to which
/// a successful answer holds nothing. Preparing a request never fails.
pub open spec fn sends(r: Result<Call<()>, Error>, op: Operation, id: Seq<u8>, body: JsonV) -> bool {
    r matches Ok(q) && q@ == prepared(op, id, Some(body))
}

/// Prepares a `GET` whose answer holds a `U`.
fn ask<U: Model>(op: Operation) -> (r: Call<U>)
    requires
        op.method() == Method::Get,
    ensures
        r@ == prepared(op, Seq::empty(), None),
{
    let endpoint = op.endpoint();
    Call::new(Request::new(endpoint.method, op.target("")))
}

/// Prepares a `PUT` or a `PATCH` with its body.
fn send<B: Model>(op: Operation, id: &str, body: &B) -> (r: Result<Call<()>, Error>)
    requires
        op.method() != Method::Get,
    ensures
        sends(r, op, id.spec_bytes(), B::encoded(body.deep_view())),
{
    let endpoint = op.endpoint();
    let request = Request::new(endpoint.method, op.target(id));
    match request.with_body(body) {
        Ok(request) => Ok(Call::new(request.returns_nothing())),
        Err(e) => Err(e),
    }
}

/// A client for the microVM that listens on one Unix socket.
#[derive(Clone, Debug, PartialEq)]
pub struct MicrovmClient {
    sock_path: String,
}

impl MicrovmClient {
    /// A client for the microVM that listens on the socket at `socket_path`.
    pub fn new(socket_path: String) -> (r: Self)
        ensures
            r.socket()@ == socket_path@,
    {
        Self { sock_path: socket_path }
    }

    /// The path of the socket as a value of specifications.
    pub closed spec fn socket(&self) -> String {
        self.sock_path
    }

    /// The path of the socket that the client was made for.
    pub fn socket_path(&self) -> (r: &str)
        ensures
            r@ == self.socket()@,
    {
        self.sock_path.as_str()
    }

    /// Creates a snapshot of the microVM state. The microVM should be paused.
    pub fn create_snapshot(&self, body: SnapshotCreateParams) -> (r: Result<Call<()>, Error>)
        ensures
            sends(
                r,
                Operation::CreateSnapshot,
                Seq::empty(),
                SnapshotCreateParams::encoded(body.deep_view()),
            ),
    {
        send(Operation::CreateSnapshot, "", &body)
    }

    /// Creates a synchronous action.
    pub fn create_sync_action(&self, body: InstanceActionInfo) -> (r: Result<Call<()>, Error>)
        ensures
            sends(
                r,
                Operation::CreateSyncAction,
                Seq::empty(),
                InstanceActionInfo::encoded(body.deep_view()),
            ),
    {
        send(Operation::CreateSyncAction, "", &body)
    }

    /// Asks for the balloon device configuration.
    pub fn describe_balloon_config(&self) -> (r: Call<Balloon>)
        ensures
            r@ == prepared(Operation::DescribeBalloonConfig, Seq::empty(), None),
    {
        ask(Operation::DescribeBalloonConfig)
    }

    /// Asks for the latest balloon device statistics.
    pub fn describe_balloon_stats(&self) -> (r: Call<BalloonStats>)
        ensures
            r@ == prepared(Operation::DescribeBalloonStats, Seq::empty(), None),
    {
        ask(Operation::DescribeBalloonStats)
    }

    /// Asks for general information about the instance.
    pub fn describe_instance(&self) -> (r: Call<InstanceInfo>)
        ensures
            r@ == prepared(Operation::DescribeInstance, Seq::empty(), None),
    {
        ask(Operation::DescribeInstance)
    }

    /// Asks for the configuration of all VM resources.
    pub fn get_export_vm_config(&self) -> (r: Call<FullVmConfiguration>)
        ensures
            r@ == prepared(Operation::GetExportVmConfig, Seq::empty(), None),
    {
        ask(Operation::GetExportVmConfig)
    }

    /// Asks for the Firecracker version.
    pub fn get_firecracker_version(&self) -> (r: Call<FirecrackerVersion>)
        ensures
            r@ == prepared(Operation::GetFirecrackerVersion, Seq::empty(), None),
    {
        ask(Operation::GetFirecrackerVersion)
    }

    /// Asks for the machine configuration of the VM.
    pub fn get_machine_configuration(&self) -> (r: Call<MachineConfiguration>)
        ensures
            r@ == prepared(Operation::GetMachineConfiguration, Seq::empty(), None),
    {
        ask(Operation::GetMachineConfiguration)
    }

    /// Asks for the contents of the MMDS data store.
    pub fn get_mmds(&self) -> (r: Call<Json>)
        ensures
            r@ == prepared(Operation::GetMmds, Seq::empty(), None),
    {
        ask(Operation::GetMmds)
    }

    /// Loads the microVM state from a snapshot.
    pub fn load_snapshot(&self, body: SnapshotLoadParams) -> (r: Result<Call<()>, Error>)
        ensures
            sends(
                r,
                Operation::LoadSnapshot,
                Seq::empty(),
                SnapshotLoadParams::encoded(body.deep_view()),
            ),
    {
        send(Operation::LoadSnapshot, "", &body)
    }

    /// Updates the balloon device.
    pub fn patch_balloon(&self, body: BalloonUpdate) -> (r: Result<Call<()>, Error>)
        ensures
            sends(
                r,
                Operation::PatchBalloon,
                Seq::empty(),
                BalloonUpdate::encoded(body.deep_view()),
            ),
    {
        send(Operation::PatchBalloon, "", &body)
    }

    /// Updates the polling interval of the balloon statistics.
    pub fn patch_balloon_stats_interval(
        &self,
        body: BalloonStatsUpdate,
    ) -> (r: Result<Call<()>, Error>)
        ensures
            sends(
                r,
                Operation::PatchBalloonStatsInterval,
                Seq::empty(),
                BalloonStatsUpdate::encoded(body.deep_view()),
            ),
    {
        send(Operation::PatchBalloonStatsInterval, "", &body)
    }

    /// Updates the properties of the drive with the given id.
    pub fn patch_guest_drive_by_id(
        &self,
        drive_id: &str,
        body: PartialDrive,
    ) -> (r: Result<Call<()>, Error>)
        ensures
            sends(
                r,
                Operation::PatchGuestDriveById,
                drive_id.spec_bytes(),
                PartialDrive::encoded(body.deep_view()),
            ),
    {
        send(Operation::PatchGuestDriveById, drive_id, &body)
    }

    /// Updates the rate limiters of the network interface with the given id.
    pub fn patch_guest_network_interface_by_id(
        &self,
        iface_id: &str,
        body: PartialNetworkInterface,
    ) -> (r: Result<Call<()>, Error>)
        ensures
            sends(
                r,
                Operation::PatchGuestNetworkInterfaceById,
                iface_id.spec_bytes(),
                PartialNetworkInterface::encoded(body.deep_view()),
            ),
    {
        send(Operation::PatchGuestNetworkInterfaceById, iface_id, &body)
    }

    /// Partially updates the machine configuration of the VM. An absent body
    /// is sent as `null`.
    pub fn patch_machine_configuration(
        &self,
        body: Option<MachineConfiguration>,
    ) -> (r: Result<Call<()>, Error>)
        ensures
            sends(
                r,
                Operation::PatchMachineConfiguration,
                Seq::empty(),
                <Option<MachineConfiguration> as Model>::encoded(body.deep_view()),
            ),
    {
        send(Operation::PatchMachineConfiguration, "", &body)
    }

    /// Updates the contents of the MMDS data store. An absent body is sent as
    /// `null`.
    pub fn patch_mmds(&self, body: Option<Json>) -> (r: Result<Call<()>, Error>)
        ensures
            sends(
                r,
                Operation::PatchMmds,
                Seq::empty(),
                <Option<Json> as Model>::encoded(body.deep_view()),
            ),
    {
        send(Operation::PatchMmds, "", &body)
    }

    /// Changes the running state of the microVM.
    pub fn patch_vm(&self, body: Vm) -> (r: Result<Call<()>, Error>)
        ensures
            sends(r, Operation::PatchVm, Seq::empty(), Vm::encoded(body.deep_view())),
    {
        send(Operation::PatchVm, "", &body)
    }

    /// Creates or replaces the balloon device.
    pub fn put_balloon(&self, body: Balloon) -> (r: Result<Call<()>, Error>)
        ensures
            sends(r, Operation::PutBalloon, Seq::empty(), Balloon::encoded(body.deep_view())),
    {
        send(Operation::PutBalloon, "", &body)
    }

    /// Configures the CPU features exposed to the guest. An absent body is
    /// sent as `null`.
    pub fn put_cpu_configuration(&self, body: Option<CpuConfig>) -> (r: Result<Call<()>, Error>)
        ensures
            sends(
                r,
                Operation::PutCpuConfiguration,
                Seq::empty(),
                <Option<CpuConfig> as Model>::encoded(body.deep_view()),
            ),
    {
        send(Operation::PutCpuConfiguration, "", &body)
    }

    /// Creates the entropy device.
    pub fn put_entropy_device(&self, body: EntropyDevice) -> (r: Result<Call<()>, Error>)
        ensures
            sends(
                r,
                Operation::PutEntropyDevice,
                Seq::empty(),
                EntropyDevice::encoded(body.deep_view()),
            ),
    {
        send(Operation::PutEntropyDevice, "", &body)
    }

    /// Creates or replaces the boot source.
    pub fn put_guest_boot_source(&self, body: BootSource) -> (r: Result<Call<()>, Error>)
        ensures
            sends(
                r,
                Operation::PutGuestBootSource,
                Seq::empty(),
                BootSource::encoded(body.deep_view()),
            ),
    {
        send(Operation::PutGuestBootSource, "", &body)
    }

    /// Creates or replaces the drive with the given id.
    pub fn put_guest_drive_by_id(&self, drive_id: &str, body: Drive) -> (r: Result<Call<()>, Error>)
        ensures
            sends(
                r,
                Operation::PutGuestDriveById,
                drive_id.spec_bytes(),
                Drive::encoded(body.deep_view()),
            ),
    {
        send(Operation::PutGuestDriveById, drive_id, &body)
    }

    /// Creates the network interface with the given id.
    pub fn put_guest_network_interface_by_id(
        &self,
        iface_id: &str,
        body: NetworkInterface,
    ) -> (r: Result<Call<()>, Error>)
        ensures
            sends(
                r,
                Operation::PutGuestNetworkInterfaceById,
                iface_id.spec_bytes(),
                NetworkInterface::encoded(body.deep_view()),
            ),
    {
        send(Operation::PutGuestNetworkInterfaceById, iface_id, &body)
    }

    /// Creates or replaces the vsock device.
    pub fn put_guest_vsock(&self, body: Vsock) -> (r: Result<Call<()>, Error>)
        ensures
            sends(r, Operation::PutGuestVsock, Seq::empty(), Vsock::encoded(body.deep_view())),
    {
        send(Operation::PutGuestVsock, "", &body)
    }

    /// Initialises the logger.
    pub fn put_logger(&self, body: Logger) -> (r: Result<Call<()>, Error>)
        ensures
            sends(r, Operation::PutLogger, Seq::empty(), Logger::encoded(body.deep_view())),
    {
        send(Operation::PutLogger, "", &body)
    }

    /// Replaces the machine configuration of the VM. An absent body is sent
    /// as `null`.
    pub fn put_machine_configuration(
        &self,
        body: Option<MachineConfiguration>,
    ) -> (r: Result<Call<()>, Error>)
        ensures
            sends(
                r,
                Operation::PutMachineConfiguration,
                Seq::empty(),
                <Option<MachineConfiguration> as Model>::encoded(body.deep_view()),
            ),
    {
        send(Operation::PutMachineConfiguration, "", &body)
    }

    /// Initialises the metrics system.
    pub fn put_metrics(&self, body: Metrics) -> (r: Result<Call<()>, Error>)
        ensures
            sends(r, Operation::PutMetrics, Seq::empty(), Metrics::encoded(body.deep_view())),
    {
        send(Operation::PutMetrics, "", &body)
    }

    /// Creates the MMDS data store. An absent body is sent as `null`.
    pub fn put_mmds(&self, body: Option<Json>) -> (r: Result<Call<()>, Error>)
        ensures
            sends(
                r,
                Operation::PutMmds,
                Seq::empty(),
                <Option<Json> as Model>::encoded(body.deep_view()),
            ),
    {
        send(Operation::PutMmds, "", &body)
    }

    /// Configures the MMDS.
    pub fn put_mmds_config(&self, body: MmdsConfig) -> (r: Result<Call<()>, Error>)
        ensures
            sends(r, Operation::PutMmdsConfig, Seq::empty(), MmdsConfig::encoded(body.deep_view())),
    {
        send(Operation::PutMmdsConfig, "", &body)
    }
}

/// A call whose operation has no response body succeeds on every success
/// status with the unit value, whatever the body holds: an empty body, or one
/// that is not JSON, does not turn the success into an error.
pub proof fn lemma_success_needs_no_body(op: Operation, id: Seq<u8>, sent: Option<JsonV>, status: u16, body: Seq<u8>)
    requires
        !op.spec_endpoint().response_body,
        is_success(status),
    ensures
        reply::<()>(prepared(op, id, sent).no_return_type, status, body) == Reply::Value(()),
{
}

/// A status outside the success range is a failure that carries that very
/// status, for every operation, every expected type and every body.
pub proof fn lemma_failure_keeps_status<U: Model>(
    op: Operation,
    id: Seq<u8>,
    sent: Option<JsonV>,
    status: u16,
    body: Seq<u8>,
)
    requires
        !is_success(status),
    ensures
        reply::<U>(prepared(op, id, sent).no_return_type, status, body) matches Reply::Failure {
            code,
            ..
        } && code == status,
{
}

} // verus!
