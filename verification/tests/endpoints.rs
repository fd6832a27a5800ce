use wick::api::client::MicrovmClient;
use wick::api::endpoint::{Endpoint, Operation};
use wick::api::request::{Header, Method};
use wick::json::Json;
use wick::models;

fn client() -> MicrovmClient {
    MicrovmClient::new("/run/firecracker.socket".to_string())
}

fn all() -> Vec<Operation> {
    vec![
        Operation::CreateSnapshot,
        Operation::CreateSyncAction,
        Operation::DescribeBalloonConfig,
        Operation::DescribeBalloonStats,
        Operation::DescribeInstance,
        Operation::GetExportVmConfig,
        Operation::GetFirecrackerVersion,
        Operation::GetMachineConfiguration,
        Operation::GetMmds,
        Operation::LoadSnapshot,
        Operation::PatchBalloon,
        Operation::PatchBalloonStatsInterval,
        Operation::PatchGuestDriveById,
        Operation::PatchGuestNetworkInterfaceById,
        Operation::PatchMachineConfiguration,
        Operation::PatchMmds,
        Operation::PatchVm,
        Operation::PutBalloon,
        Operation::PutCpuConfiguration,
        Operation::PutEntropyDevice,
        Operation::PutGuestBootSource,
        Operation::PutGuestDriveById,
        Operation::PutGuestNetworkInterfaceById,
        Operation::PutGuestVsock,
        Operation::PutLogger,
        Operation::PutMachineConfiguration,
        Operation::PutMetrics,
        Operation::PutMmds,
        Operation::PutMmdsConfig,
    ]
}

#[test]
fn the_endpoint_table() {
    let get = |path| Endpoint {
        method: Method::Get,
        path,
        by_id: false,
        request_body: false,
        response_body: true,
    };
    let put = |path| Endpoint {
        method: Method::Put,
        path,
        by_id: false,
        request_body: true,
        response_body: false,
    };
    let patch = |path| Endpoint {
        method: Method::Patch,
        path,
        by_id: false,
        request_body: true,
        response_body: false,
    };
    assert_eq!(Operation::DescribeInstance.endpoint(), get("/"));
    assert_eq!(Operation::GetFirecrackerVersion.endpoint(), get("/version"));
    assert_eq!(Operation::GetMachineConfiguration.endpoint(), get("/machine-config"));
    assert_eq!(Operation::PutMachineConfiguration.endpoint(), put("/machine-config"));
    assert_eq!(Operation::PatchMachineConfiguration.endpoint(), patch("/machine-config"));
    assert_eq!(Operation::PutGuestBootSource.endpoint(), put("/boot-source"));
    assert_eq!(Operation::DescribeBalloonConfig.endpoint(), get("/balloon"));
    assert_eq!(Operation::PutBalloon.endpoint(), put("/balloon"));
    assert_eq!(Operation::PatchBalloon.endpoint(), patch("/balloon"));
    assert_eq!(Operation::DescribeBalloonStats.endpoint(), get("/balloon/statistics"));
    assert_eq!(Operation::PatchBalloonStatsInterval.endpoint(), patch("/balloon/statistics"));
    assert_eq!(Operation::PutGuestVsock.endpoint(), put("/vsock"));
    assert_eq!(Operation::PutLogger.endpoint(), put("/logger"));
    assert_eq!(Operation::PutMetrics.endpoint(), put("/metrics"));
    assert_eq!(Operation::GetMmds.endpoint(), get("/mmds"));
    assert_eq!(Operation::PutMmds.endpoint(), put("/mmds"));
    assert_eq!(Operation::PatchMmds.endpoint(), patch("/mmds"));
    assert_eq!(Operation::PutMmdsConfig.endpoint(), put("/mmds/config"));
    assert_eq!(Operation::PutEntropyDevice.endpoint(), put("/entropy"));
    assert_eq!(Operation::PutCpuConfiguration.endpoint(), put("/cpu-config"));
    assert_eq!(Operation::CreateSyncAction.endpoint(), put("/actions"));
    assert_eq!(Operation::CreateSnapshot.endpoint(), put("/snapshot/create"));
    assert_eq!(Operation::LoadSnapshot.endpoint(), put("/snapshot/load"));
    assert_eq!(Operation::PatchVm.endpoint(), patch("/vm"));
    assert_eq!(Operation::GetExportVmConfig.endpoint(), get("/vm/config"));
    assert_eq!(
        Operation::PutGuestDriveById.endpoint(),
        Endpoint { by_id: true, ..put("/drives/") }
    );
    assert_eq!(
        Operation::PatchGuestDriveById.endpoint(),
        Endpoint { by_id: true, ..patch("/drives/") }
    );
    assert_eq!(
        Operation::PutGuestNetworkInterfaceById.endpoint(),
        Endpoint { by_id: true, ..put("/network-interfaces/") }
    );
    assert_eq!(
        Operation::PatchGuestNetworkInterfaceById.endpoint(),
        Endpoint { by_id: true, ..patch("/network-interfaces/") }
    );
}

#[test]
fn only_a_get_reads_a_body_and_only_a_get_sends_none() {
    for op in all() {
        let e = op.endpoint();
        assert_eq!(e.request_body, e.method != Method::Get, "{:?}", op);
        assert_eq!(e.response_body, e.method == Method::Get, "{:?}", op);
        assert!(e.path.starts_with('/'), "{:?}", op);
        assert_eq!(e.by_id, e.path.len() > 1 && e.path.ends_with('/'), "{:?}", op);
    }
}

#[test]
fn every_target_can_be_sent_whatever_the_identifier() {
    for op in all() {
        for id in ["", "rootfs", "a/b", " ", "é\u{0}#?<>`", "%2F"] {
            let target = op.target(id);
            assert_eq!(wick::api::uri::check_target("/tmp/fc.sock", &target), None, "{:?}", target);
        }
    }
}

#[test]
fn every_operation_without_response_body_succeeds_on_no_content() {
    let c = client();
    let requests = vec![
        c.create_snapshot(models::SnapshotCreateParams::new("/m".to_string(), "/s".to_string())),
        c.create_sync_action(models::InstanceActionInfo::default()),
        c.load_snapshot(models::SnapshotLoadParams::new("/s".to_string())),
        c.patch_balloon(models::BalloonUpdate::new(1)),
        c.patch_balloon_stats_interval(models::BalloonStatsUpdate::new(1)),
        c.patch_guest_drive_by_id("d", models::PartialDrive::new("d".to_string())),
        c.patch_guest_network_interface_by_id(
            "e",
            models::PartialNetworkInterface::new("e".to_string()),
        ),
        c.patch_machine_configuration(None),
        c.patch_mmds(Some(Json::parse(b"{\"a\":1}").unwrap())),
        c.patch_vm(models::Vm::default()),
        c.put_balloon(models::Balloon::new(1, false)),
        c.put_cpu_configuration(Some(models::CpuConfig::default())),
        c.put_entropy_device(models::EntropyDevice::default()),
        c.put_guest_boot_source(models::BootSource::new("/k".to_string())),
        c.put_guest_drive_by_id("d", models::Drive::new("d".to_string(), true)),
        c.put_guest_network_interface_by_id(
            "e",
            models::NetworkInterface::new("tap0".to_string(), "e".to_string()),
        ),
        c.put_guest_vsock(models::Vsock::new(3, "/v".to_string())),
        c.put_logger(models::Logger::default()),
        c.put_machine_configuration(Some(models::MachineConfiguration::new(128, 1))),
        c.put_metrics(models::Metrics::new("/m".to_string())),
        c.put_mmds(None),
        c.put_mmds_config(models::MmdsConfig::new(vec![])),
    ];
    assert_eq!(requests.len(), 22);
    for request in requests {
        let request = request.unwrap().into_request();
        assert_ne!(request.method(), Method::Get);
        assert!(!request.reads_body(204));
        assert_eq!(request.execute::<()>(204, b""), Ok(()));
        assert_eq!(request.execute::<()>(200, b"not json"), Ok(()));
        assert_eq!(request.execute::<()>(418, b"").unwrap_err().status(), Some(418));
        let headers = request.headers();
        assert_eq!(headers.len(), 3);
        assert_eq!(headers[2], Header::ContentLength(request.body().len()));
    }
}

#[test]
fn every_get_reads_its_body() {
    let c = client();
    let requests = vec![
        (c.describe_balloon_config().into_request(), "/balloon"),
        (c.describe_balloon_stats().into_request(), "/balloon/statistics"),
        (c.describe_instance().into_request(), "/"),
        (c.get_export_vm_config().into_request(), "/vm/config"),
        (c.get_firecracker_version().into_request(), "/version"),
        (c.get_machine_configuration().into_request(), "/machine-config"),
        (c.get_mmds().into_request(), "/mmds"),
    ];
    for (request, path) in requests {
        assert_eq!(request.method(), Method::Get);
        assert_eq!(request.path(), path);
        assert_eq!(request.body(), "");
        assert!(request.headers().is_empty());
        assert!(request.reads_body(200));
        assert!(request.reads_body(500));
        assert_eq!(request.execute::<Json>(200, b"[1]"), Ok(Json::Array(vec![Json::Int(1)])));
        assert_eq!(request.execute::<Json>(500, b"[1]").unwrap_err().status(), Some(500));
    }
}

#[test]
fn sent_paths_and_bodies() {
    let c = client();
    let r = c.put_mmds(Some(Json::parse(b"{\"latest\":{\"meta-data\":{\"ami-id\":\"ami-1\"}}}").unwrap())).unwrap().into_request();
    assert_eq!((r.method(), r.path()), (Method::Put, "/mmds"));
    assert_eq!(r.body(), "{\"latest\":{\"meta-data\":{\"ami-id\":\"ami-1\"}}}");
    let r = c.put_mmds(None).unwrap().into_request();
    assert_eq!(r.body(), "null");
    let r = c.put_cpu_configuration(None).unwrap().into_request();
    assert_eq!((r.method(), r.path(), r.body()), (Method::Put, "/cpu-config", "null"));
    let r = c.put_entropy_device(models::EntropyDevice::default()).unwrap().into_request();
    assert_eq!((r.method(), r.path(), r.body()), (Method::Put, "/entropy", "{}"));
    let r = c.patch_vm(models::Vm::new(models::vm::State::Paused)).unwrap().into_request();
    assert_eq!((r.method(), r.path(), r.body()), (Method::Patch, "/vm", "{\"state\":\"Paused\"}"));
    let r = c
        .create_snapshot(models::SnapshotCreateParams::new("/m".to_string(), "/s".to_string()))
        .unwrap().into_request();
    assert_eq!((r.method(), r.path()), (Method::Put, "/snapshot/create"));
    assert_eq!(r.body(), "{\"mem_file_path\":\"/m\",\"snapshot_path\":\"/s\"}");
    let r = c.load_snapshot(models::SnapshotLoadParams::new("/s".to_string())).unwrap().into_request();
    assert_eq!((r.method(), r.path(), r.body()), (Method::Put, "/snapshot/load", "{\"snapshot_path\":\"/s\"}"));
    let r = c.put_logger(models::Logger::default()).unwrap().into_request();
    assert_eq!((r.method(), r.path(), r.body()), (Method::Put, "/logger", "{}"));
    let r = c.put_metrics(models::Metrics::new("/m".to_string())).unwrap().into_request();
    assert_eq!((r.method(), r.path()), (Method::Put, "/metrics"));
    let r = c.put_guest_vsock(models::Vsock::new(3, "/v".to_string())).unwrap().into_request();
    assert_eq!((r.method(), r.path()), (Method::Put, "/vsock"));
    let r = c.put_mmds_config(models::MmdsConfig::new(vec![])).unwrap().into_request();
    assert_eq!((r.method(), r.path()), (Method::Put, "/mmds/config"));
    let r = c.patch_balloon(models::BalloonUpdate::new(5)).unwrap().into_request();
    assert_eq!((r.method(), r.path(), r.body()), (Method::Patch, "/balloon", "{\"amount_mib\":5}"));
    let r = c.patch_balloon_stats_interval(models::BalloonStatsUpdate::new(5)).unwrap().into_request();
    assert_eq!((r.method(), r.path()), (Method::Patch, "/balloon/statistics"));
    let r = c.patch_mmds(None).unwrap().into_request();
    assert_eq!((r.method(), r.path(), r.body()), (Method::Patch, "/mmds", "null"));
}
