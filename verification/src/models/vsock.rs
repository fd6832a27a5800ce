use crate::codec::{
    begin, field, group_codec, is_object, object, opt_field, read_field, read_opt_field, with,
    with_opt, write_field, write_opt_field, Model,
};
use crate::json::{Json, JsonV};
use vstd::prelude::*;

verus! {

/// Defines a vsock device, backed by a set of Unix Domain Sockets, on the host
/// side. For host-initiated connections, Firecracker will be listening on the
/// Unix socket identified by the path `uds_path`. Firecracker will create this
/// socket, bind and listen on it. Host-initiated connections will be performed by
/// connection to this socket and issuing a connection forwarding request to the
/// desired guest-side vsock port (i.e. `CONNECT 52\\n`, to connect to port 52).
/// For guest-initiated connections, Firecracker will expect host software to be
/// bound and listening on Unix sockets at `uds_path_<PORT>`. E.g.
/// "/path/to/host_vsock.sock_52" for port number 52.
#[derive(Clone, Debug, Default, PartialEq)]
pub struct Vsock {
    /// Guest Vsock CID
    pub guest_cid: i32,
    /// Path to UNIX domain socket, used to proxy vsock connections.
    pub uds_path: String,
    /// This parameter has been deprecated and it will be removed in future
    /// Firecracker release.
    pub vsock_id: Option<String>,
}

/// The mathematical value of a [`Vsock`].
pub struct VsockView {
    pub guest_cid: i32,
    pub uds_path: Seq<char>,
    pub vsock_id: Option<Seq<char>>,
}

impl DeepView for Vsock {
    type V = VsockView;

    open spec fn deep_view(&self) -> VsockView {
        VsockView {
            guest_cid: self.guest_cid.deep_view(),
            uds_path: self.uds_path.deep_view(),
            vsock_id: self.vsock_id.deep_view(),
        }
    }
}

impl Vsock {
    pub fn new(guest_cid: i32, uds_path: String) -> (r: Self)
        ensures
            r == (Vsock { guest_cid, uds_path, vsock_id: None }),
    {
        Self { guest_cid, uds_path, vsock_id: None }
    }
}

impl Model for Vsock {
    open spec fn encoded(v: VsockView) -> JsonV {
        let m = Seq::empty();
        let m = with::<i32>(m, "guest_cid"@, v.guest_cid);
        let m = with::<String>(m, "uds_path"@, v.uds_path);
        let m = with_opt::<String>(m, "vsock_id"@, v.vsock_id);
        JsonV::Object(m)
    }

    open spec fn decoded(j: JsonV) -> Option<VsockView> {
        let guest_cid = field::<i32>(j, "guest_cid"@);
        let uds_path = field::<String>(j, "uds_path"@);
        let vsock_id = opt_field::<String>(j, "vsock_id"@);
        if j is Object && guest_cid is Some && uds_path is Some && vsock_id is Some {
            Some(
                VsockView {
                    guest_cid: guest_cid.unwrap(),
                    uds_path: uds_path.unwrap(),
                    vsock_id: vsock_id.unwrap(),
                },
            )
        } else {
            None
        }
    }

    open spec fn faithful(v: VsockView) -> bool {
        true
    }

    fn to_json(&self) -> (j: Json) {
        let mut m = begin();
        write_field(&mut m, "guest_cid", &self.guest_cid);
        write_field(&mut m, "uds_path", &self.uds_path);
        write_opt_field(&mut m, "vsock_id", &self.vsock_id);
        object(m)
    }

    fn from_json(j: &Json) -> (r: Option<Self>) {
        if !is_object(j) {
            return None;
        }
        let guest_cid = read_field::<i32>(j, "guest_cid")?;
        let uds_path = read_field::<String>(j, "uds_path")?;
        let vsock_id = read_opt_field::<String>(j, "vsock_id")?;
        Some(Vsock { guest_cid, uds_path, vsock_id })
    }

    proof fn round_trip(v: VsockView) {
        broadcast use group_codec;

        reveal_strlit("guest_cid");
        reveal_strlit("uds_path");
        reveal_strlit("vsock_id");
        assert("guest_cid"@.len() == 9);
        assert("uds_path"@.len() == 8);
        assert("vsock_id"@.len() == 8);
        assert("uds_path"@[0] != "vsock_id"@[0]);
    }
}

} // verus!
