use wick::api::client::MicrovmClient;
use wick::api::error::{ApiError, Error};
use wick::api::request::{Answer, Header, Method, Request};
use wick::models;
use wick::models::instance_action_info::ActionType;
use wick::models::{BootSource, FirecrackerVersion, InstanceActionInfo, PartialDrive};

fn client() -> MicrovmClient {
    MicrovmClient::new("/tmp/fc.sock".to_string())
}

#[test]
fn put_boot_source_with_no_content_is_unit_success() {
    let request = client()
        .put_guest_boot_source(BootSource::new("/vm/vmlinux".to_string()))
        .unwrap().into_request();
    assert_eq!(request.method(), Method::Put);
    assert_eq!(request.path(), "/boot-source");
    assert_eq!(request.body(), "{\"kernel_image_path\":\"/vm/vmlinux\"}");
    assert!(!request.reads_body(204));
    assert_eq!(request.execute::<()>(204, b""), Ok(()));
}

#[test]
fn success_without_return_type_never_reads_the_body() {
    let request = client()
        .put_guest_boot_source(BootSource::new("/vm/vmlinux".to_string()))
        .unwrap().into_request();
    assert_eq!(request.execute::<()>(200, b"this is not json"), Ok(()));
    assert_eq!(request.execute::<()>(299, b"{\"x\":"), Ok(()));
}

#[test]
fn put_actions_refused_with_fault_message() {
    let request = client()
        .create_sync_action(InstanceActionInfo::new(ActionType::InstanceStart))
        .unwrap().into_request();
    assert_eq!(request.method(), Method::Put);
    assert_eq!(request.path(), "/actions");
    assert_eq!(request.body(), "{\"action_type\":\"InstanceStart\"}");
    assert!(request.reads_body(400));
    let result = request.execute::<()>(400, b"{\"fault_message\":\"bad state\"}");
    let expected = ApiError {
        code: 400,
        body: "{\"fault_message\":\"bad state\"}".to_string(),
        fault: Some(models::Error { fault_message: Some("bad state".to_string()) }),
    };
    assert_eq!(result, Err(Error::Api(expected.clone())));
    assert_eq!(expected.fault_message(), Some(&"bad state".to_string()));
    assert_eq!(result.unwrap_err().status(), Some(400));
}

#[test]
fn get_version_decodes_the_body() {
    let request = client().get_firecracker_version().into_request();
    assert_eq!(request.method(), Method::Get);
    assert_eq!(request.path(), "/version");
    assert_eq!(request.body(), "");
    assert!(request.headers().is_empty());
    assert!(request.reads_body(200));
    let result = request.execute::<FirecrackerVersion>(200, b"{\"firecracker_version\":\"1.12.0\"}");
    assert_eq!(result, Ok(FirecrackerVersion::new("1.12.0".to_string())));
}

#[test]
fn patch_drive_with_server_error_and_plain_text_body() {
    let request = client()
        .patch_guest_drive_by_id("rootfs", PartialDrive::new("rootfs".to_string()))
        .unwrap().into_request();
    assert_eq!(request.method(), Method::Patch);
    assert_eq!(request.path(), "/drives/rootfs");
    let result = request.execute::<()>(500, b"internal error");
    assert_eq!(
        result,
        Err(Error::Api(ApiError { code: 500, body: "internal error".to_string(), fault: None }))
    );
}

#[test]
fn failure_with_empty_body_keeps_the_status() {
    let request = client().describe_instance().into_request();
    let result = request.execute::<models::InstanceInfo>(404, b"");
    assert_eq!(result, Err(Error::Api(ApiError { code: 404, body: String::new(), fault: None })));
}

#[test]
fn failure_with_malformed_json_keeps_the_status() {
    let request = client().get_machine_configuration().into_request();
    let result = request.execute::<models::MachineConfiguration>(503, b"{\"fault_message\":");
    match result {
        Err(Error::Api(e)) => {
            assert_eq!(e.code, 503);
            assert_eq!(e.body, "{\"fault_message\":");
            assert_eq!(e.fault, None);
        }
        other => panic!("unexpected result: {:?}", other),
    }
}

#[test]
fn statuses_next_to_the_success_range_are_failures() {
    let request = client().put_balloon(models::Balloon::new(64, true)).unwrap().into_request();
    assert_eq!(request.execute::<()>(199, b"").unwrap_err().status(), Some(199));
    assert_eq!(request.execute::<()>(300, b"").unwrap_err().status(), Some(300));
    assert_eq!(request.execute::<()>(200, b""), Ok(()));
    assert_eq!(request.execute::<()>(299, b""), Ok(()));
}

#[test]
fn failure_body_that_is_json_of_another_shape_has_no_fault() {
    let request = client().describe_instance().into_request();
    let result = request.execute::<models::InstanceInfo>(400, b"\"internal error\"");
    assert_eq!(
        result,
        Err(Error::Api(ApiError {
            code: 400,
            body: "\"internal error\"".to_string(),
            fault: None
        }))
    );
    let result = request.execute::<models::InstanceInfo>(400, b"{\"fault_message\":7}");
    assert_eq!(result.unwrap_err(), Error::Api(ApiError {
        code: 400,
        body: "{\"fault_message\":7}".to_string(),
        fault: None
    }));
}

#[test]
fn failure_body_without_message_is_a_fault_without_message() {
    let request = client().describe_instance().into_request();
    let result = request.execute::<models::InstanceInfo>(400, b"{}");
    let expected = ApiError {
        code: 400,
        body: "{}".to_string(),
        fault: Some(models::Error { fault_message: None }),
    };
    assert_eq!(expected.fault_message(), None);
    assert_eq!(result, Err(Error::Api(expected)));
}

#[test]
fn failure_body_that_is_not_utf8_is_shown_with_replacement_characters() {
    let request = client().describe_instance().into_request();
    let result = request.execute::<models::InstanceInfo>(500, &[0x66, 0xff, 0x6f]);
    assert_eq!(
        result,
        Err(Error::Api(ApiError { code: 500, body: "f\u{fffd}o".to_string(), fault: None }))
    );
}

#[test]
fn success_with_unreadable_body_is_a_deserialization_error() {
    let request = client().get_firecracker_version().into_request();
    assert!(matches!(
        request.execute::<FirecrackerVersion>(200, b""),
        Err(Error::Deserialization(_))
    ));
    assert!(matches!(
        request.execute::<FirecrackerVersion>(200, b"not json"),
        Err(Error::Deserialization(_))
    ));
    assert!(matches!(
        request.execute::<FirecrackerVersion>(200, b"{\"version\":\"1.12.0\"}"),
        Err(Error::Deserialization(_))
    ));
    assert!(matches!(
        request.execute::<FirecrackerVersion>(200, b"{\"firecracker_version\":12}"),
        Err(Error::Deserialization(_))
    ));
}

#[test]
fn a_return_type_that_null_does_not_fit_is_unreadable_without_a_body() {
    let request = Request::new(Method::Put, "/x".to_string()).returns_nothing();
    assert!(matches!(
        request.execute::<FirecrackerVersion>(204, b"{\"firecracker_version\":\"1\"}"),
        Err(Error::Deserialization(_))
    ));
    assert_eq!(request.execute::<Option<FirecrackerVersion>>(204, b"junk"), Ok(None));
}

#[test]
fn request_builders_set_one_thing_each() {
    let request = Request::new(Method::Patch, "/vm".to_string());
    assert_eq!(request.method(), Method::Patch);
    assert_eq!(request.path(), "/vm");
    assert_eq!(request.body(), "");
    assert!(request.reads_body(204));
    let request = request.returns_nothing();
    assert!(!request.reads_body(204));
    assert!(request.reads_body(500));
    assert_eq!(request.body(), "");
    let request = request.with_body(&models::Vm::new(models::vm::State::Resumed)).unwrap();
    assert_eq!(request.body(), "{\"state\":\"Resumed\"}");
    assert_eq!(request.method(), Method::Patch);
    assert_eq!(request.path(), "/vm");
    assert!(!request.reads_body(204));
}

#[test]
fn headers_describe_the_json_body() {
    let request = client().put_balloon(models::Balloon::new(64, true)).unwrap().into_request();
    let body = "{\"amount_mib\":64,\"deflate_on_oom\":true}";
    assert_eq!(request.body(), body);
    assert_eq!(
        request.headers(),
        vec![Header::ContentTypeJson, Header::AcceptJson, Header::ContentLength(body.len())]
    );
}

#[test]
fn content_length_counts_bytes_not_characters() {
    let request = client()
        .put_guest_boot_source(BootSource::new("/vm/é".to_string()))
        .unwrap().into_request();
    assert_eq!(request.body(), "{\"kernel_image_path\":\"/vm/é\"}");
    assert_eq!(request.headers()[2], Header::ContentLength(30));
}

#[test]
fn absent_machine_configuration_is_sent_as_null() {
    let request = client().put_machine_configuration(None).unwrap().into_request();
    assert_eq!(request.body(), "null");
    assert_eq!(request.headers()[2], Header::ContentLength(4));
    let request = client()
        .patch_machine_configuration(Some(models::MachineConfiguration::new(256, 2)))
        .unwrap().into_request();
    assert_eq!(request.body(), "{\"mem_size_mib\":256,\"vcpu_count\":2}");
}

#[test]
fn method_names() {
    assert_eq!(Method::Get.as_str(), "GET");
    assert_eq!(Method::Put.as_str(), "PUT");
    assert_eq!(Method::Patch.as_str(), "PATCH");
}

#[test]
fn socket_path_is_kept() {
    assert_eq!(client().socket_path(), "/tmp/fc.sock");
}

#[test]
fn a_transport_failure_is_passed_on_at_once() {
    let request = client().get_firecracker_version().into_request();
    let answer = Answer::Failed("connection refused".to_string());
    assert_eq!(
        request.conclude::<FirecrackerVersion>(answer),
        Err(Error::Transport("connection refused".to_string()))
    );
}

#[test]
fn a_received_answer_is_read_as_execute_reads_it() {
    let request = client().get_firecracker_version().into_request();
    let body = b"{\"firecracker_version\":\"1.12.0\"}".to_vec();
    assert_eq!(
        request.conclude::<FirecrackerVersion>(Answer::Received { status: 200, body: body.clone() }),
        request.execute::<FirecrackerVersion>(200, &body)
    );
    assert_eq!(
        request.conclude::<FirecrackerVersion>(Answer::Received { status: 500, body: body.clone() }),
        request.execute::<FirecrackerVersion>(500, &body)
    );
    let put = client().put_balloon(models::Balloon::new(1, true)).unwrap().into_request();
    assert_eq!(put.conclude::<()>(Answer::Received { status: 204, body: Vec::new() }), Ok(()));
}

#[test]
fn a_call_knows_the_type_of_its_answer() {
    let call = client().get_firecracker_version();
    assert_eq!(call.request().path(), "/version");
    let body = b"{\"firecracker_version\":\"1.12.0\"}".to_vec();
    assert_eq!(
        call.conclude(Answer::Received { status: 200, body }),
        Ok(FirecrackerVersion::new("1.12.0".to_string()))
    );
    assert_eq!(
        call.conclude(Answer::Failed("broken pipe".to_string())),
        Err(Error::Transport("broken pipe".to_string()))
    );
    let call = client().put_balloon(models::Balloon::new(1, true)).unwrap();
    assert_eq!(call.conclude(Answer::Received { status: 204, body: Vec::new() }), Ok(()));
    let call = client().describe_balloon_config();
    let body = b"{\"amount_mib\":1,\"deflate_on_oom\":true}".to_vec();
    assert_eq!(
        call.conclude(Answer::Received { status: 200, body }),
        Ok(models::Balloon::new(1, true))
    );
}
