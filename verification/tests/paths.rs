use wick::api::client::MicrovmClient;
use wick::api::endpoint::Operation;
use wick::api::error::{Error, InvalidUri};
use wick::api::request::{Method, Request};
use wick::api::uri::{check_target, socket_uri};
use wick::escape::urlencode;
use wick::models::{Drive, NetworkInterface, PartialNetworkInterface};

#[test]
fn unreserved_characters_stay() {
    assert_eq!(urlencode("rootfs"), "rootfs");
    assert_eq!(urlencode("AZaz09-._~"), "AZaz09-._~");
    assert_eq!(urlencode(""), "");
}

#[test]
fn reserved_characters_become_percent_and_two_upper_case_digits() {
    assert_eq!(urlencode("a/b"), "a%2Fb");
    assert_eq!(urlencode(" "), "%20");
    assert_eq!(urlencode("%"), "%25");
    assert_eq!(urlencode("a b?c#d"), "a%20b%3Fc%23d");
    assert_eq!(urlencode("\u{0}\u{7f}"), "%00%7F");
    assert_eq!(urlencode("+*"), "%2B%2A");
}

#[test]
fn characters_beyond_ascii_are_encoded_byte_by_byte() {
    assert_eq!(urlencode("é"), "%C3%A9");
    assert_eq!(urlencode("日本"), "%E6%97%A5%E6%9C%AC");
    assert_eq!(urlencode("\u{1f600}"), "%F0%9F%98%80");
}

#[test]
fn encoding_splits_over_concatenation() {
    let a = "dri/ve";
    let b = " one";
    let mut joined = a.to_string();
    joined.push_str(b);
    let mut expected = urlencode(a);
    expected.push_str(&urlencode(b));
    assert_eq!(urlencode(&joined), expected);
}

#[test]
fn drive_id_with_a_slash_cannot_add_a_segment() {
    let client = MicrovmClient::new("/tmp/fc.sock".to_string());
    let request = client
        .put_guest_drive_by_id("disks/root", Drive::new("disks/root".to_string(), true))
        .unwrap().into_request();
    assert_eq!(request.path(), "/drives/disks%2Froot");
    assert_eq!(request.path().matches('/').count(), 2);
}

#[test]
fn interface_id_is_encoded_in_both_operations() {
    let client = MicrovmClient::new("/tmp/fc.sock".to_string());
    let put = client
        .put_guest_network_interface_by_id(
            "eth 0",
            NetworkInterface::new("tap0".to_string(), "eth 0".to_string()),
        )
        .unwrap().into_request();
    assert_eq!(put.method(), Method::Put);
    assert_eq!(put.path(), "/network-interfaces/eth%200");
    let patch = client
        .patch_guest_network_interface_by_id(
            "eth 0",
            PartialNetworkInterface::new("eth 0".to_string()),
        )
        .unwrap().into_request();
    assert_eq!(patch.method(), Method::Patch);
    assert_eq!(patch.path(), "/network-interfaces/eth%200");
}

#[test]
fn targets_of_operations() {
    assert_eq!(Operation::DescribeInstance.target("ignored"), "/");
    assert_eq!(Operation::PutMmdsConfig.target(""), "/mmds/config");
    assert_eq!(Operation::PatchGuestDriveById.target("a/b"), "/drives/a%2Fb");
    assert_eq!(Operation::PutGuestDriveById.target(""), "/drives/");
}

#[test]
fn socket_uri_names_the_socket_in_hexadecimal() {
    let uri = socket_uri("/tmp/fc.sock", "/machine-config").unwrap();
    assert_eq!(uri.to_string(), "unix://2f746d702f66632e736f636b:0/machine-config");
    assert_eq!(uri.path(), "/machine-config");
    let uri = socket_uri("", "/").unwrap();
    assert_eq!(uri.to_string(), "unix://:0/");
}

#[test]
fn request_uri_uses_the_request_path() {
    let client = MicrovmClient::new("foo.sock".to_string());
    let request = client
        .put_guest_drive_by_id("a b", Drive::new("a b".to_string(), false))
        .unwrap().into_request();
    let uri = request.uri(client.socket_path()).unwrap();
    assert_eq!(uri.to_string(), "unix://666f6f2e736f636b:0/drives/a%20b");
}

#[test]
fn paths_that_are_not_absolute_are_refused() {
    assert_eq!(check_target("/s", ""), Some(InvalidUri::NotAbsolute));
    assert_eq!(check_target("/s", "version"), Some(InvalidUri::NotAbsolute));
    assert_eq!(check_target("/s", " /version"), Some(InvalidUri::NotAbsolute));
    assert_eq!(
        socket_uri("/s", "version").unwrap_err(),
        Error::UriError(InvalidUri::NotAbsolute)
    );
}

#[test]
fn paths_with_forbidden_bytes_are_refused() {
    for path in ["/a b", "/a?b", "/a#b", "/a<b", "/a>b", "/a`b", "/a\u{7f}", "/a\n"] {
        assert_eq!(check_target("/s", path), Some(InvalidUri::InvalidCharacter), "{:?}", path);
    }
    let request = Request::new(Method::Get, "/a b".to_string());
    assert_eq!(request.uri("/s").unwrap_err(), Error::UriError(InvalidUri::InvalidCharacter));
}

#[test]
fn visible_characters_and_characters_beyond_ascii_are_accepted() {
    for path in ["/", "/a%20b", "/a!b\"c$d&e'f(g)h*i+j,k-l.m/n:o;p=q@r[s\\t]u^v_w{x|y}z~", "/é"] {
        assert_eq!(check_target("/s", path), None, "{:?}", path);
        assert!(socket_uri("/s", path).is_ok(), "{:?}", path);
    }
}

#[test]
fn the_longest_uri_is_accepted_and_one_byte_more_is_refused() {
    let socket = "/s";
    let fits = format!("/{}", "a".repeat(65534 - 9 - 4 - 1));
    assert_eq!(check_target(socket, &fits), None);
    assert!(socket_uri(socket, &fits).is_ok());
    let over = format!("/{}", "a".repeat(65534 - 9 - 4));
    assert_eq!(check_target(socket, &over), Some(InvalidUri::TooLong));
    assert_eq!(socket_uri(socket, &over).unwrap_err(), Error::UriError(InvalidUri::TooLong));
}

#[test]
fn the_first_fault_is_reported() {
    let long = "b ".repeat(40000);
    assert_eq!(check_target("/s", &long), Some(InvalidUri::NotAbsolute));
    let long = format!("/{}", long);
    assert_eq!(check_target("/s", &long), Some(InvalidUri::InvalidCharacter));
}

#[test]
fn different_identifiers_have_different_encodings() {
    let ids = ["a/b", "a%2Fb", "a%252Fb", "a b", "a+b", "a%20b", "A", "%41", "", "%", "é", "%C3%A9"];
    for (i, a) in ids.iter().enumerate() {
        for (j, b) in ids.iter().enumerate() {
            assert_eq!(urlencode(a) == urlencode(b), i == j, "{:?} {:?}", a, b);
            assert_eq!(
                Operation::PutGuestDriveById.target(a) == Operation::PutGuestDriveById.target(b),
                i == j
            );
        }
    }
    assert_eq!(urlencode("a%2Fb"), "a%252Fb");
    assert_eq!(urlencode("%41"), "%2541");
}
