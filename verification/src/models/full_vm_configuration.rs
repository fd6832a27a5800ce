use crate::codec::{
    begin, group_codec, is_object, object, opt_faithful, opt_field, read_opt_field, with_opt,
    write_opt_field, Model,
};
use crate::json::{Json, JsonV};
use crate::models::balloon::Balloon;
use crate::models::boot_source::{BootSource, BootSourceView};
use crate::models::cpu_config::{CpuConfig, CpuConfigView};
use crate::models::drive::{Drive, DriveView};
use crate::models::entropy_device::{EntropyDevice, EntropyDeviceView};
use crate::models::logger::{Logger, LoggerView};
use crate::models::machine_configuration::MachineConfiguration;
use crate::models::metrics::{Metrics, MetricsView};
use crate::models::mmds_config::{MmdsConfig, MmdsConfigView};
use crate::models::network_interface::{NetworkInterface, NetworkInterfaceView};
use crate::models::vsock::{Vsock, VsockView};
use vstd::prelude::*;

verus! {

/// The configuration of all resources of a VM.
#[derive(Clone, Debug, Default, PartialEq)]
pub struct FullVmConfiguration {
    pub balloon: Option<Box<Balloon>>,
    /// Configurations for all block devices.
    pub drives: Option<Vec<Drive>>,
    pub boot_source: Option<Box<BootSource>>,
    pub cpu_config: Option<Box<CpuConfig>>,
    pub logger: Option<Box<Logger>>,
    pub machine_config: Option<Box<MachineConfiguration>>,
    pub metrics: Option<Box<Metrics>>,
    pub mmds_config: Option<Box<MmdsConfig>>,
    /// Configurations for all net devices.
    pub network_interfaces: Option<Vec<NetworkInterface>>,
    pub vsock: Option<Box<Vsock>>,
    pub entropy: Option<Box<EntropyDevice>>,
}

/// The mathematical value of a [`FullVmConfiguration`].
pub struct FullVmConfigurationView {
    pub balloon: Option<Balloon>,
    pub drives: Option<Seq<DriveView>>,
    pub boot_source: Option<BootSourceView>,
    pub cpu_config: Option<CpuConfigView>,
    pub logger: Option<LoggerView>,
    pub machine_config: Option<MachineConfiguration>,
    pub metrics: Option<MetricsView>,
    pub mmds_config: Option<MmdsConfigView>,
    pub network_interfaces: Option<Seq<NetworkInterfaceView>>,
    pub vsock: Option<VsockView>,
    pub entropy: Option<EntropyDeviceView>,
}

impl DeepView for FullVmConfiguration {
    type V = FullVmConfigurationView;

    open spec fn deep_view(&self) -> FullVmConfigurationView {
        FullVmConfigurationView {
            balloon: self.balloon.deep_view(),
            drives: self.drives.deep_view(),
            boot_source: self.boot_source.deep_view(),
            cpu_config: self.cpu_config.deep_view(),
            logger: self.logger.deep_view(),
            machine_config: self.machine_config.deep_view(),
            metrics: self.metrics.deep_view(),
            mmds_config: self.mmds_config.deep_view(),
            network_interfaces: self.network_interfaces.deep_view(),
            vsock: self.vsock.deep_view(),
            entropy: self.entropy.deep_view(),
        }
    }
}

impl Model for FullVmConfiguration {
    open spec fn encoded(v: FullVmConfigurationView) -> JsonV {
        let m = Seq::empty();
        let m = with_opt::<Box<Balloon>>(m, "balloon"@, v.balloon);
        let m = with_opt::<Vec<Drive>>(m, "drives"@, v.drives);
        let m = with_opt::<Box<BootSource>>(m, "boot-source"@, v.boot_source);
        let m = with_opt::<Box<CpuConfig>>(m, "cpu-config"@, v.cpu_config);
        let m = with_opt::<Box<Logger>>(m, "logger"@, v.logger);
        let m = with_opt::<Box<MachineConfiguration>>(m, "machine-config"@, v.machine_config);
        let m = with_opt::<Box<Metrics>>(m, "metrics"@, v.metrics);
        let m = with_opt::<Box<MmdsConfig>>(m, "mmds-config"@, v.mmds_config);
        let m = with_opt::<Vec<NetworkInterface>>(m, "network-interfaces"@, v.network_interfaces);
        let m = with_opt::<Box<Vsock>>(m, "vsock"@, v.vsock);
        let m = with_opt::<Box<EntropyDevice>>(m, "entropy"@, v.entropy);
        JsonV::Object(m)
    }

    open spec fn decoded(j: JsonV) -> Option<FullVmConfigurationView> {
        let balloon = opt_field::<Box<Balloon>>(j, "balloon"@);
        let drives = opt_field::<Vec<Drive>>(j, "drives"@);
        let boot_source = opt_field::<Box<BootSource>>(j, "boot-source"@);
        let cpu_config = opt_field::<Box<CpuConfig>>(j, "cpu-config"@);
        let logger = opt_field::<Box<Logger>>(j, "logger"@);
        let machine_config = opt_field::<Box<MachineConfiguration>>(j, "machine-config"@);
        let metrics = opt_field::<Box<Metrics>>(j, "metrics"@);
        let mmds_config = opt_field::<Box<MmdsConfig>>(j, "mmds-config"@);
        let network_interfaces = opt_field::<Vec<NetworkInterface>>(j, "network-interfaces"@);
        let vsock = opt_field::<Box<Vsock>>(j, "vsock"@);
        let entropy = opt_field::<Box<EntropyDevice>>(j, "entropy"@);
        if j is Object
            && balloon is Some
            && drives is Some
            && boot_source is Some
            && cpu_config is Some
            && logger is Some
            && machine_config is Some
            && metrics is Some
            && mmds_config is Some
            && network_interfaces is Some
            && vsock is Some
            && entropy is Some {
            Some(
                FullVmConfigurationView {
                    balloon: balloon.unwrap(),
                    drives: drives.unwrap(),
                    boot_source: boot_source.unwrap(),
                    cpu_config: cpu_config.unwrap(),
                    logger: logger.unwrap(),
                    machine_config: machine_config.unwrap(),
                    metrics: metrics.unwrap(),
                    mmds_config: mmds_config.unwrap(),
                    network_interfaces: network_interfaces.unwrap(),
                    vsock: vsock.unwrap(),
                    entropy: entropy.unwrap(),
                },
            )
        } else {
            None
        }
    }

    open spec fn faithful(v: FullVmConfigurationView) -> bool {
        &&& opt_faithful::<Box<CpuConfig>>(v.cpu_config)
    }

    fn to_json(&self) -> (j: Json) {
        let mut m = begin();
        write_opt_field(&mut m, "balloon", &self.balloon);
        write_opt_field(&mut m, "drives", &self.drives);
        write_opt_field(&mut m, "boot-source", &self.boot_source);
        write_opt_field(&mut m, "cpu-config", &self.cpu_config);
        write_opt_field(&mut m, "logger", &self.logger);
        write_opt_field(&mut m, "machine-config", &self.machine_config);
        write_opt_field(&mut m, "metrics", &self.metrics);
        write_opt_field(&mut m, "mmds-config", &self.mmds_config);
        write_opt_field(&mut m, "network-interfaces", &self.network_interfaces);
        write_opt_field(&mut m, "vsock", &self.vsock);
        write_opt_field(&mut m, "entropy", &self.entropy);
        object(m)
    }

    fn from_json(j: &Json) -> (r: Option<Self>) {
        if !is_object(j) {
            return None;
        }
        let balloon = read_opt_field::<Box<Balloon>>(j, "balloon")?;
        let drives = read_opt_field::<Vec<Drive>>(j, "drives")?;
        let boot_source = read_opt_field::<Box<BootSource>>(j, "boot-source")?;
        let cpu_config = read_opt_field::<Box<CpuConfig>>(j, "cpu-config")?;
        let logger = read_opt_field::<Box<Logger>>(j, "logger")?;
        let machine_config = read_opt_field::<Box<MachineConfiguration>>(j, "machine-config")?;
        let metrics = read_opt_field::<Box<Metrics>>(j, "metrics")?;
        let mmds_config = read_opt_field::<Box<MmdsConfig>>(j, "mmds-config")?;
        let network_interfaces = read_opt_field::<Vec<NetworkInterface>>(j, "network-interfaces")?;
        let vsock = read_opt_field::<Box<Vsock>>(j, "vsock")?;
        let entropy = read_opt_field::<Box<EntropyDevice>>(j, "entropy")?;
        Some(
            FullVmConfiguration {
                balloon,
                drives,
                boot_source,
                cpu_config,
                logger,
                machine_config,
                metrics,
                mmds_config,
                network_interfaces,
                vsock,
                entropy,
            },
        )
    }

    proof fn round_trip(v: FullVmConfigurationView) {
        broadcast use group_codec;

        reveal_strlit("balloon");
        reveal_strlit("drives");
        reveal_strlit("boot-source");
        reveal_strlit("cpu-config");
        reveal_strlit("logger");
        reveal_strlit("machine-config");
        reveal_strlit("metrics");
        reveal_strlit("mmds-config");
        reveal_strlit("network-interfaces");
        reveal_strlit("vsock");
        reveal_strlit("entropy");
        assert("balloon"@.len() == 7);
        assert("drives"@.len() == 6);
        assert("boot-source"@.len() == 11);
        assert("cpu-config"@.len() == 10);
        assert("logger"@.len() == 6);
        assert("machine-config"@.len() == 14);
        assert("metrics"@.len() == 7);
        assert("mmds-config"@.len() == 11);
        assert("network-interfaces"@.len() == 18);
        assert("vsock"@.len() == 5);
        assert("entropy"@.len() == 7);
        assert("balloon"@[0] != "metrics"@[0]);
        assert("balloon"@[0] != "entropy"@[0]);
        assert("drives"@[0] != "logger"@[0]);
        assert("boot-source"@[0] != "mmds-config"@[0]);
        assert("metrics"@[0] != "entropy"@[0]);
    }
}

} // verus!
