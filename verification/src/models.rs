//! The resources of the Firecracker API, one type each, with their JSON forms.

pub mod balloon;
pub mod balloon_stats;
pub mod balloon_stats_update;
pub mod balloon_update;
pub mod boot_source;
pub mod cpu_config;
pub mod cpu_template;
pub mod drive;
pub mod entropy_device;
pub mod error;
pub mod firecracker_version;
pub mod full_vm_configuration;
pub mod instance_action_info;
pub mod instance_info;
pub mod logger;
pub mod machine_configuration;
pub mod memory_backend;
pub mod metrics;
pub mod mmds_config;
pub mod network_interface;
pub mod network_override;
pub mod partial_drive;
pub mod partial_network_interface;
pub mod rate_limiter;
pub mod snapshot_create_params;
pub mod snapshot_load_params;
pub mod token_bucket;
pub mod vm;
pub mod vsock;

pub use balloon::Balloon;
pub use balloon_stats::BalloonStats;
pub use balloon_stats_update::BalloonStatsUpdate;
pub use balloon_update::BalloonUpdate;
pub use boot_source::BootSource;
pub use cpu_config::CpuConfig;
pub use cpu_template::CpuTemplate;
pub use drive::Drive;
pub use drive::CacheType;
pub use drive::IoEngine;
pub use entropy_device::EntropyDevice;
pub use error::Error;
pub use firecracker_version::FirecrackerVersion;
pub use full_vm_configuration::FullVmConfiguration;
pub use instance_action_info::InstanceActionInfo;
pub use instance_action_info::ActionType;
pub use instance_info::InstanceInfo;
pub use logger::Logger;
pub use logger::Level;
pub use machine_configuration::MachineConfiguration;
pub use machine_configuration::HugePages;
pub use memory_backend::MemoryBackend;
pub use memory_backend::BackendType;
pub use metrics::Metrics;
pub use mmds_config::MmdsConfig;
pub use mmds_config::Version;
pub use network_interface::NetworkInterface;
pub use network_override::NetworkOverride;
pub use partial_drive::PartialDrive;
pub use partial_network_interface::PartialNetworkInterface;
pub use rate_limiter::RateLimiter;
pub use snapshot_create_params::SnapshotCreateParams;
pub use snapshot_create_params::SnapshotType;
pub use snapshot_load_params::SnapshotLoadParams;
pub use token_bucket::TokenBucket;
pub use vm::Vm;
pub use vsock::Vsock;
