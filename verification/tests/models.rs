use std::fmt::Debug;

use wick::codec::Model;
use wick::json::Json;
use wick::models;
use wick::models::drive::{CacheType, IoEngine};
use wick::models::instance_action_info::ActionType;
use wick::models::logger::Level;
use wick::models::machine_configuration::HugePages;
use wick::models::memory_backend::BackendType;
use wick::models::mmds_config::Version;
use wick::models::snapshot_create_params::SnapshotType;
use wick::models::{
    Balloon, BalloonStats, BalloonStatsUpdate, BalloonUpdate, BootSource, CpuConfig, CpuTemplate,
    Drive, EntropyDevice, FirecrackerVersion, FullVmConfiguration, InstanceActionInfo,
    InstanceInfo, Logger, MachineConfiguration, MemoryBackend, Metrics, MmdsConfig,
    NetworkInterface, NetworkOverride, PartialDrive, PartialNetworkInterface, RateLimiter,
    SnapshotCreateParams, SnapshotLoadParams, TokenBucket, Vm, Vsock,
};

fn s(text: &str) -> String {
    text.to_string()
}

/// Writes the model, compares the text, reads the text back and compares the
/// model.
fn there_and_back<T: Model + PartialEq + Debug>(value: &T, text: &str) {
    assert_eq!(value.to_json().to_text().unwrap(), text);
    let json = Json::parse(text.as_bytes()).unwrap();
    assert_eq!(T::from_json(&json).as_ref(), Some(value));
}

fn unreadable<T: Model + Debug>(text: &str) {
    let json = Json::parse(text.as_bytes()).unwrap();
    assert!(T::from_json(&json).is_none(), "{}", text);
}

fn limiter() -> RateLimiter {
    RateLimiter {
        bandwidth: Some(Box::new(TokenBucket { one_time_burst: Some(5), refill_time: 100, size: 10 })),
        ops: Some(Box::new(TokenBucket::new(7, 8))),
    }
}

const LIMITER: &str = "{\"bandwidth\":{\"one_time_burst\":5,\"refill_time\":100,\"size\":10},\"ops\":{\"refill_time\":7,\"size\":8}}";

#[test]
fn balloon_new_leaves_the_interval_out() {
    let b = Balloon::new(64, true);
    assert_eq!(b, Balloon { amount_mib: 64, deflate_on_oom: true, stats_polling_interval_s: None });
    there_and_back(&b, "{\"amount_mib\":64,\"deflate_on_oom\":true}");
}

#[test]
fn balloon_with_every_field() {
    let b = Balloon { amount_mib: -1, deflate_on_oom: false, stats_polling_interval_s: Some(3) };
    there_and_back(&b, "{\"amount_mib\":-1,\"deflate_on_oom\":false,\"stats_polling_interval_s\":3}");
}

#[test]
fn balloon_reads_null_as_absent_and_skips_unknown_members() {
    let json = Json::parse(
        b"{\"extra\":[1.5,{}],\"stats_polling_interval_s\":null,\"deflate_on_oom\":true,\"amount_mib\":2}",
    )
    .unwrap();
    assert_eq!(Balloon::from_json(&json), Some(Balloon::new(2, true)));
}

#[test]
fn balloon_needs_its_required_members_with_their_types() {
    unreadable::<Balloon>("{\"amount_mib\":64}");
    unreadable::<Balloon>("{\"amount_mib\":\"64\",\"deflate_on_oom\":true}");
    unreadable::<Balloon>("{\"amount_mib\":64,\"deflate_on_oom\":1}");
    unreadable::<Balloon>("{\"amount_mib\":64.5,\"deflate_on_oom\":true}");
    unreadable::<Balloon>("{\"amount_mib\":null,\"deflate_on_oom\":true}");
    unreadable::<Balloon>("{\"amount_mib\":1,\"deflate_on_oom\":true,\"stats_polling_interval_s\":\"x\"}");
    unreadable::<Balloon>("[64,true]");
    unreadable::<Balloon>("null");
}

#[test]
fn thirty_two_bit_members_keep_their_range() {
    there_and_back(&BalloonUpdate::new(i32::MAX), "{\"amount_mib\":2147483647}");
    there_and_back(&BalloonUpdate::new(i32::MIN), "{\"amount_mib\":-2147483648}");
    unreadable::<BalloonUpdate>("{\"amount_mib\":2147483648}");
    unreadable::<BalloonUpdate>("{\"amount_mib\":-2147483649}");
}

#[test]
fn sixty_four_bit_members_keep_their_range() {
    there_and_back(
        &TokenBucket { one_time_burst: Some(i64::MIN), refill_time: i64::MAX, size: 0 },
        "{\"one_time_burst\":-9223372036854775808,\"refill_time\":9223372036854775807,\"size\":0}",
    );
    unreadable::<TokenBucket>("{\"refill_time\":9223372036854775808,\"size\":0}");
    unreadable::<TokenBucket>("{\"refill_time\":1e3,\"size\":0}");
}

#[test]
fn balloon_stats_new_and_full() {
    let b = BalloonStats::new(1, 2, 3, 4);
    assert_eq!(b.target_pages, 1);
    assert_eq!(b.actual_pages, 2);
    assert_eq!(b.target_mib, 3);
    assert_eq!(b.actual_mib, 4);
    assert_eq!(b.swap_in, None);
    assert_eq!(b.hugetlb_failures, None);
    there_and_back(&b, "{\"target_pages\":1,\"actual_pages\":2,\"target_mib\":3,\"actual_mib\":4}");
    let full = BalloonStats {
        target_pages: 1,
        actual_pages: 2,
        target_mib: 3,
        actual_mib: 4,
        swap_in: Some(5),
        swap_out: Some(6),
        major_faults: Some(7),
        minor_faults: Some(8),
        free_memory: Some(9),
        total_memory: Some(10),
        available_memory: Some(11),
        disk_caches: Some(12),
        hugetlb_allocations: Some(13),
        hugetlb_failures: Some(14),
    };
    there_and_back(
        &full,
        "{\"target_pages\":1,\"actual_pages\":2,\"target_mib\":3,\"actual_mib\":4,\"swap_in\":5,\"swap_out\":6,\"major_faults\":7,\"minor_faults\":8,\"free_memory\":9,\"total_memory\":10,\"available_memory\":11,\"disk_caches\":12,\"hugetlb_allocations\":13,\"hugetlb_failures\":14}",
    );
}

#[test]
fn balloon_stats_update() {
    there_and_back(&BalloonStatsUpdate::new(5), "{\"stats_polling_interval_s\":5}");
}

#[test]
fn boot_source() {
    let b = BootSource::new(s("/vm/vmlinux"));
    assert_eq!(b.boot_args, None);
    assert_eq!(b.initrd_path, None);
    there_and_back(&b, "{\"kernel_image_path\":\"/vm/vmlinux\"}");
    let full = BootSource {
        boot_args: Some(s("console=ttyS0 reboot=k")),
        initrd_path: Some(s("/vm/initrd")),
        kernel_image_path: s("/vm/\"linux\""),
    };
    there_and_back(
        &full,
        "{\"boot_args\":\"console=ttyS0 reboot=k\",\"initrd_path\":\"/vm/initrd\",\"kernel_image_path\":\"/vm/\\\"linux\\\"\"}",
    );
    unreadable::<BootSource>("{}");
}

#[test]
fn cpu_config_carries_any_json() {
    there_and_back(&CpuConfig::default(), "{}");
    let c = CpuConfig {
        cpuid_modifiers: Some(Json::parse(b"[{\"leaf\":\"0x1\",\"weight\":1.5}]").unwrap()),
        msr_modifiers: Some(Json::parse(b"18446744073709551615").unwrap()),
        reg_modifiers: Some(Json::parse(b"\"x\"").unwrap()),
        vcpu_features: Some(Json::parse(b"true").unwrap()),
        kvm_capabilities: Some(Json::parse(b"[\"!171\"]").unwrap()),
    };
    there_and_back(
        &c,
        "{\"cpuid_modifiers\":[{\"leaf\":\"0x1\",\"weight\":1.5}],\"msr_modifiers\":18446744073709551615,\"reg_modifiers\":\"x\",\"vcpu_features\":true,\"kvm_capabilities\":[\"!171\"]}",
    );
}

#[test]
fn a_json_member_that_is_null_comes_back_absent() {
    let c = CpuConfig { cpuid_modifiers: Some(Json::Null), ..CpuConfig::default() };
    let text = c.to_json().to_text().unwrap();
    assert_eq!(text, "{\"cpuid_modifiers\":null}");
    let back = CpuConfig::from_json(&Json::parse(text.as_bytes()).unwrap()).unwrap();
    assert_eq!(back, CpuConfig::default());
}

#[test]
fn cpu_template_names() {
    let all = [
        (CpuTemplate::C3, "C3"),
        (CpuTemplate::T2, "T2"),
        (CpuTemplate::T2S, "T2S"),
        (CpuTemplate::T2CL, "T2CL"),
        (CpuTemplate::T2A, "T2A"),
        (CpuTemplate::V1N1, "V1N1"),
        (CpuTemplate::Unset, "None"),
    ];
    for (template, name) in all {
        assert_eq!(template.as_str(), name);
        assert_eq!(template.to_string(), name);
        assert_eq!(CpuTemplate::from_name(name), Some(template));
        there_and_back(&template, &format!("\"{}\"", name));
    }
    assert_eq!(CpuTemplate::from_name("c3"), None);
    assert_eq!(CpuTemplate::from_name(""), None);
    assert_eq!(CpuTemplate::default(), CpuTemplate::C3);
    unreadable::<CpuTemplate>("\"T3\"");
    unreadable::<CpuTemplate>("3");
}

#[test]
fn enum_names() {
    there_and_back(&CacheType::Unsafe, "\"Unsafe\"");
    there_and_back(&CacheType::Writeback, "\"Writeback\"");
    there_and_back(&IoEngine::Sync, "\"Sync\"");
    there_and_back(&IoEngine::Async, "\"Async\"");
    there_and_back(&ActionType::FlushMetrics, "\"FlushMetrics\"");
    there_and_back(&ActionType::InstanceStart, "\"InstanceStart\"");
    there_and_back(&ActionType::SendCtrlAltDel, "\"SendCtrlAltDel\"");
    there_and_back(&models::instance_info::State::NotStarted, "\"Not started\"");
    there_and_back(&models::instance_info::State::Running, "\"Running\"");
    there_and_back(&models::instance_info::State::Paused, "\"Paused\"");
    there_and_back(&Level::Error, "\"Error\"");
    there_and_back(&Level::Warning, "\"Warning\"");
    there_and_back(&Level::Info, "\"Info\"");
    there_and_back(&Level::Debug, "\"Debug\"");
    there_and_back(&Level::Trace, "\"Trace\"");
    there_and_back(&HugePages::Unset, "\"None\"");
    there_and_back(&HugePages::TwoM, "\"2M\"");
    there_and_back(&BackendType::File, "\"File\"");
    there_and_back(&BackendType::Uffd, "\"Uffd\"");
    there_and_back(&Version::V1, "\"V1\"");
    there_and_back(&Version::V2, "\"V2\"");
    there_and_back(&SnapshotType::Full, "\"Full\"");
    there_and_back(&SnapshotType::Diff, "\"Diff\"");
    there_and_back(&models::vm::State::Paused, "\"Paused\"");
    there_and_back(&models::vm::State::Resumed, "\"Resumed\"");
    unreadable::<models::vm::State>("\"Running\"");
    unreadable::<models::instance_info::State>("\"NotStarted\"");
    unreadable::<HugePages>("\"TwoM\"");
}

#[test]
fn drive() {
    let d = Drive::new(s("rootfs"), true);
    assert_eq!(d.drive_id, "rootfs");
    assert!(d.is_root_device);
    assert_eq!(d.rate_limiter, None);
    there_and_back(&d, "{\"drive_id\":\"rootfs\",\"is_root_device\":true}");
    let full = Drive {
        drive_id: s("data"),
        partuuid: Some(s("0eaffc6c-01")),
        is_root_device: false,
        cache_type: Some(CacheType::Writeback),
        is_read_only: Some(true),
        path_on_host: Some(s("/vm/data.img")),
        rate_limiter: Some(Box::new(limiter())),
        io_engine: Some(IoEngine::Async),
        socket: Some(s("/vm/vhost.sock")),
    };
    there_and_back(
        &full,
        &format!(
            "{{\"drive_id\":\"data\",\"partuuid\":\"0eaffc6c-01\",\"is_root_device\":false,\"cache_type\":\"Writeback\",\"is_read_only\":true,\"path_on_host\":\"/vm/data.img\",\"rate_limiter\":{},\"io_engine\":\"Async\",\"socket\":\"/vm/vhost.sock\"}}",
            LIMITER
        ),
    );
    unreadable::<Drive>("{\"drive_id\":\"d\",\"is_root_device\":true,\"cache_type\":\"Fast\"}");
    unreadable::<Drive>("{\"drive_id\":\"d\",\"is_root_device\":true,\"rate_limiter\":{\"ops\":{\"size\":1}}}");
}

#[test]
fn entropy_device_and_rate_limiter() {
    there_and_back(&EntropyDevice::default(), "{}");
    there_and_back(&RateLimiter::default(), "{}");
    there_and_back(&limiter(), LIMITER);
    there_and_back(
        &EntropyDevice { rate_limiter: Some(Box::new(limiter())) },
        &format!("{{\"rate_limiter\":{}}}", LIMITER),
    );
    unreadable::<RateLimiter>("7");
    unreadable::<RateLimiter>("\"{}\"");
}

#[test]
fn token_bucket_new() {
    let t = TokenBucket::new(100, 10);
    assert_eq!(t, TokenBucket { one_time_burst: None, refill_time: 100, size: 10 });
    there_and_back(&t, "{\"refill_time\":100,\"size\":10}");
}

#[test]
fn fault_record() {
    there_and_back(&models::Error::default(), "{}");
    there_and_back(
        &models::Error { fault_message: Some(s("bad state")) },
        "{\"fault_message\":\"bad state\"}",
    );
}

#[test]
fn firecracker_version() {
    let v = FirecrackerVersion::new(s("1.12.0"));
    assert_eq!(v.firecracker_version, "1.12.0");
    there_and_back(&v, "{\"firecracker_version\":\"1.12.0\"}");
}

#[test]
fn instance_action_info() {
    let a = InstanceActionInfo::new(ActionType::SendCtrlAltDel);
    assert_eq!(a.action_type, ActionType::SendCtrlAltDel);
    there_and_back(&a, "{\"action_type\":\"SendCtrlAltDel\"}");
}

#[test]
fn instance_info() {
    let i = InstanceInfo::new(
        s("Firecracker"),
        s("vm-1"),
        models::instance_info::State::NotStarted,
        s("1.12.0"),
    );
    assert_eq!(i.app_name, "Firecracker");
    assert_eq!(i.id, "vm-1");
    assert_eq!(i.vmm_version, "1.12.0");
    there_and_back(
        &i,
        "{\"app_name\":\"Firecracker\",\"id\":\"vm-1\",\"state\":\"Not started\",\"vmm_version\":\"1.12.0\"}",
    );
}

#[test]
fn logger() {
    there_and_back(&Logger::default(), "{}");
    let l = Logger {
        level: Some(Level::Debug),
        log_path: Some(s("/vm/log.fifo")),
        show_level: Some(true),
        show_log_origin: Some(false),
        module: Some(s("api_server")),
    };
    there_and_back(
        &l,
        "{\"level\":\"Debug\",\"log_path\":\"/vm/log.fifo\",\"show_level\":true,\"show_log_origin\":false,\"module\":\"api_server\"}",
    );
}

#[test]
fn machine_configuration() {
    let m = MachineConfiguration::new(256, 2);
    assert_eq!(m.mem_size_mib, 256);
    assert_eq!(m.vcpu_count, 2);
    assert_eq!(m.cpu_template, None);
    there_and_back(&m, "{\"mem_size_mib\":256,\"vcpu_count\":2}");
    let full = MachineConfiguration {
        cpu_template: Some(CpuTemplate::T2),
        smt: Some(false),
        mem_size_mib: 1024,
        track_dirty_pages: Some(true),
        vcpu_count: 4,
        huge_pages: Some(HugePages::TwoM),
    };
    there_and_back(
        &full,
        "{\"cpu_template\":\"T2\",\"smt\":false,\"mem_size_mib\":1024,\"track_dirty_pages\":true,\"vcpu_count\":4,\"huge_pages\":\"2M\"}",
    );
}

#[test]
fn memory_backend_and_metrics() {
    let b = MemoryBackend::new(BackendType::Uffd, s("/vm/uffd.sock"));
    there_and_back(&b, "{\"backend_type\":\"Uffd\",\"backend_path\":\"/vm/uffd.sock\"}");
    let m = Metrics::new(s("/vm/metrics.fifo"));
    there_and_back(&m, "{\"metrics_path\":\"/vm/metrics.fifo\"}");
}

#[test]
fn mmds_config() {
    let m = MmdsConfig::new(vec![s("eth0"), s("eth1")]);
    assert_eq!(m.version, None);
    assert_eq!(m.ipv4_address, None);
    assert!(!m.imds_comat);
    there_and_back(&m, "{\"network_interfaces\":[\"eth0\",\"eth1\"],\"imds_comat\":false}");
    let full = MmdsConfig {
        version: Some(Version::V2),
        network_interfaces: vec![],
        ipv4_address: Some(s("169.254.169.254")),
        imds_comat: true,
    };
    there_and_back(
        &full,
        "{\"version\":\"V2\",\"network_interfaces\":[],\"ipv4_address\":\"169.254.169.254\",\"imds_comat\":true}",
    );
    unreadable::<MmdsConfig>("{\"network_interfaces\":[\"eth0\",1],\"imds_comat\":false}");
    unreadable::<MmdsConfig>("{\"network_interfaces\":\"eth0\",\"imds_comat\":false}");
}

#[test]
fn network_interfaces() {
    let n = NetworkInterface::new(s("tap0"), s("eth0"));
    assert_eq!(n.host_dev_name, "tap0");
    assert_eq!(n.iface_id, "eth0");
    there_and_back(&n, "{\"host_dev_name\":\"tap0\",\"iface_id\":\"eth0\"}");
    let full = NetworkInterface {
        guest_mac: Some(s("06:00:AC:10:00:02")),
        host_dev_name: s("tap0"),
        iface_id: s("eth0"),
        rx_rate_limiter: Some(Box::new(limiter())),
        tx_rate_limiter: Some(Box::new(RateLimiter::default())),
    };
    there_and_back(
        &full,
        &format!(
            "{{\"guest_mac\":\"06:00:AC:10:00:02\",\"host_dev_name\":\"tap0\",\"iface_id\":\"eth0\",\"rx_rate_limiter\":{},\"tx_rate_limiter\":{{}}}}",
            LIMITER
        ),
    );
    let o = NetworkOverride::new(s("eth0"), s("tap1"));
    there_and_back(&o, "{\"iface_id\":\"eth0\",\"host_dev_name\":\"tap1\"}");
    let p = PartialNetworkInterface::new(s("eth0"));
    there_and_back(&p, "{\"iface_id\":\"eth0\"}");
    let p = PartialNetworkInterface {
        iface_id: s("eth0"),
        rx_rate_limiter: None,
        tx_rate_limiter: Some(Box::new(limiter())),
    };
    there_and_back(&p, &format!("{{\"iface_id\":\"eth0\",\"tx_rate_limiter\":{}}}", LIMITER));
}

#[test]
fn partial_drive() {
    let p = PartialDrive::new(s("rootfs"));
    there_and_back(&p, "{\"drive_id\":\"rootfs\"}");
    let p = PartialDrive {
        drive_id: s("rootfs"),
        path_on_host: Some(s("/vm/new.img")),
        rate_limiter: Some(Box::new(limiter())),
    };
    there_and_back(
        &p,
        &format!("{{\"drive_id\":\"rootfs\",\"path_on_host\":\"/vm/new.img\",\"rate_limiter\":{}}}", LIMITER),
    );
}

#[test]
fn snapshots() {
    let c = SnapshotCreateParams::new(s("/vm/mem"), s("/vm/state"));
    there_and_back(&c, "{\"mem_file_path\":\"/vm/mem\",\"snapshot_path\":\"/vm/state\"}");
    let c = SnapshotCreateParams { snapshot_type: Some(SnapshotType::Diff), ..c };
    there_and_back(
        &c,
        "{\"mem_file_path\":\"/vm/mem\",\"snapshot_path\":\"/vm/state\",\"snapshot_type\":\"Diff\"}",
    );
    let l = SnapshotLoadParams::new(s("/vm/state"));
    assert_eq!(l.mem_backend, None);
    there_and_back(&l, "{\"snapshot_path\":\"/vm/state\"}");
    let l = SnapshotLoadParams {
        track_dirty_pages: Some(true),
        mem_file_path: Some(s("/vm/mem")),
        mem_backend: Some(MemoryBackend::new(BackendType::File, s("/vm/mem"))),
        snapshot_path: s("/vm/state"),
        resume_vm: Some(false),
        network_overrides: Some(vec![
            NetworkOverride::new(s("eth0"), s("tap7")),
            NetworkOverride::new(s("eth1"), s("tap8")),
        ]),
    };
    there_and_back(
        &l,
        "{\"track_dirty_pages\":true,\"mem_file_path\":\"/vm/mem\",\"mem_backend\":{\"backend_type\":\"File\",\"backend_path\":\"/vm/mem\"},\"snapshot_path\":\"/vm/state\",\"resume_vm\":false,\"network_overrides\":[{\"iface_id\":\"eth0\",\"host_dev_name\":\"tap7\"},{\"iface_id\":\"eth1\",\"host_dev_name\":\"tap8\"}]}",
    );
    unreadable::<SnapshotLoadParams>("{\"snapshot_path\":\"/s\",\"network_overrides\":[{\"iface_id\":\"e\"}]}");
}

#[test]
fn vm_and_vsock() {
    let v = Vm::new(models::vm::State::Paused);
    assert_eq!(v.state, models::vm::State::Paused);
    there_and_back(&v, "{\"state\":\"Paused\"}");
    let v = Vsock::new(3, s("/vm/v.sock"));
    assert_eq!(v.vsock_id, None);
    there_and_back(&v, "{\"guest_cid\":3,\"uds_path\":\"/vm/v.sock\"}");
    let v = Vsock { vsock_id: Some(s("vsock0")), ..v };
    there_and_back(&v, "{\"guest_cid\":3,\"uds_path\":\"/vm/v.sock\",\"vsock_id\":\"vsock0\"}");
}

#[test]
fn full_vm_configuration() {
    there_and_back(&FullVmConfiguration::default(), "{}");
    let f = FullVmConfiguration {
        balloon: Some(Box::new(Balloon::new(8, false))),
        drives: Some(vec![Drive::new(s("rootfs"), true), Drive::new(s("data"), false)]),
        boot_source: Some(Box::new(BootSource::new(s("/vm/vmlinux")))),
        cpu_config: Some(Box::new(CpuConfig {
            reg_modifiers: Some(Json::parse(b"[]").unwrap()),
            ..CpuConfig::default()
        })),
        logger: Some(Box::new(Logger::default())),
        machine_config: Some(Box::new(MachineConfiguration::new(128, 1))),
        metrics: Some(Box::new(Metrics::new(s("/vm/m")))),
        mmds_config: Some(Box::new(MmdsConfig::new(vec![s("eth0")]))),
        network_interfaces: Some(vec![NetworkInterface::new(s("tap0"), s("eth0"))]),
        vsock: Some(Box::new(Vsock::new(3, s("/vm/v.sock")))),
        entropy: Some(Box::new(EntropyDevice::default())),
    };
    there_and_back(
        &f,
        "{\"balloon\":{\"amount_mib\":8,\"deflate_on_oom\":false},\"drives\":[{\"drive_id\":\"rootfs\",\"is_root_device\":true},{\"drive_id\":\"data\",\"is_root_device\":false}],\"boot-source\":{\"kernel_image_path\":\"/vm/vmlinux\"},\"cpu-config\":{\"reg_modifiers\":[]},\"logger\":{},\"machine-config\":{\"mem_size_mib\":128,\"vcpu_count\":1},\"metrics\":{\"metrics_path\":\"/vm/m\"},\"mmds-config\":{\"network_interfaces\":[\"eth0\"],\"imds_comat\":false},\"network-interfaces\":[{\"host_dev_name\":\"tap0\",\"iface_id\":\"eth0\"}],\"vsock\":{\"guest_cid\":3,\"uds_path\":\"/vm/v.sock\"},\"entropy\":{}}",
    );
    unreadable::<FullVmConfiguration>("{\"drives\":[{\"drive_id\":\"rootfs\"}]}");
    unreadable::<FullVmConfiguration>("{\"boot_source\":7,\"boot-source\":7}");
}

#[test]
fn the_last_of_two_members_with_one_name_counts() {
    let json = Json::parse(b"{\"amount_mib\":1,\"amount_mib\":2}").unwrap();
    assert_eq!(BalloonUpdate::from_json(&json), Some(BalloonUpdate::new(2)));
}

#[test]
fn basic_types_have_json_forms() {
    there_and_back(&7i32, "7");
    there_and_back(&-7i64, "-7");
    there_and_back(&true, "true");
    there_and_back(&s("a\nb"), "\"a\\nb\"");
    there_and_back(&(), "null");
    there_and_back(&Some(5i32), "5");
    there_and_back(&None::<i32>, "null");
    there_and_back(&vec![1i32, 2, 3], "[1,2,3]");
    there_and_back(&Vec::<bool>::new(), "[]");
    there_and_back(&Box::new(9i64), "9");
    unreadable::<()>("0");
    unreadable::<i32>("true");
    unreadable::<bool>("0");
    unreadable::<String>("null");
    unreadable::<Vec<i32>>("[1,\"2\"]");
    unreadable::<Vec<i32>>("{}");
}
