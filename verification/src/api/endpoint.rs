//! The operations of the API and the endpoint that each of them uses.

use crate::api::error::InvalidUri;
use crate::api::request::Method;
use crate::api::uri::{fault_in, is_path_byte};
use crate::escape::{
    is_safe_char, lemma_encoded_is_safe, lemma_encoding_is_injective, percent_encoded, urlencode,
};
use vstd::prelude::*;
use vstd::string::{StringExecFns, StringSliceAdditionalSpecFns};
use vstd::utf8::{encode_utf8, is_ascii_chars, is_ascii_chars_encode_utf8};

verus! {

/// How an operation is carried out over HTTP.
#[derive(Clone, Copy, Debug, PartialEq, Eq)]
pub struct Endpoint {
    pub method: Method,
    /// The path, or for an endpoint that is addressed by an identifier the
    /// part of the path that comes before the identifier.
    pub path: &'static str,
    /// Whether an identifier follows the path.
    pub by_id: bool,
    /// Whether a JSON body is sent.
    pub request_body: bool,
    /// Whether a successful answer carries a JSON body that is read.
    pub response_body: bool,
}

/// The operations of the API.
#[derive(Clone, Copy, Debug, PartialEq, Eq, Hash)]
pub enum Operation {
    CreateSnapshot,
    CreateSyncAction,
    DescribeBalloonConfig,
    DescribeBalloonStats,
    DescribeInstance,
    GetExportVmConfig,
    GetFirecrackerVersion,
    GetMachineConfiguration,
    GetMmds,
    LoadSnapshot,
    PatchBalloon,
    PatchBalloonStatsInterval,
    PatchGuestDriveById,
    PatchGuestNetworkInterfaceById,
    PatchMachineConfiguration,
    PatchMmds,
    PatchVm,
    PutBalloon,
    PutCpuConfiguration,
    PutEntropyDevice,
    PutGuestBootSource,
    PutGuestDriveById,
    PutGuestNetworkInterfaceById,
    PutGuestVsock,
    PutLogger,
    PutMachineConfiguration,
    PutMetrics,
    PutMmds,
    PutMmdsConfig,
}

impl Operation {
    /// The verb of each operation.
    pub open spec fn method(self) -> Method {
        match self {
            Operation::DescribeBalloonConfig
            | Operation::DescribeBalloonStats
            | Operation::DescribeInstance
            | Operation::GetExportVmConfig
            | Operation::GetFirecrackerVersion
            | Operation::GetMachineConfiguration
            | Operation::GetMmds => Method::Get,
            Operation::PatchBalloon
            | Operation::PatchBalloonStatsInterval
            | Operation::PatchGuestDriveById
            | Operation::PatchGuestNetworkInterfaceById
            | Operation::PatchMachineConfiguration
            | Operation::PatchMmds
            | Operation::PatchVm => Method::Patch,
            _ => Method::Put,
        }
    }

    /// The path of each operation, up to the identifier where there is one.
    pub open spec fn path(self) -> Seq<char> {
        match self {
            Operation::CreateSnapshot => "/snapshot/create"@,
            Operation::CreateSyncAction => "/actions"@,
            Operation::DescribeBalloonConfig => "/balloon"@,
            Operation::DescribeBalloonStats => "/balloon/statistics"@,
            Operation::DescribeInstance => "/"@,
            Operation::GetExportVmConfig => "/vm/config"@,
            Operation::GetFirecrackerVersion => "/version"@,
            Operation::GetMachineConfiguration => "/machine-config"@,
            Operation::GetMmds => "/mmds"@,
            Operation::LoadSnapshot => "/snapshot/load"@,
            Operation::PatchBalloon => "/balloon"@,
            Operation::PatchBalloonStatsInterval => "/balloon/statistics"@,
            Operation::PatchGuestDriveById => "/drives/"@,
            Operation::PatchGuestNetworkInterfaceById => "/network-interfaces/"@,
            Operation::PatchMachineConfiguration => "/machine-config"@,
            Operation::PatchMmds => "/mmds"@,
            Operation::PatchVm => "/vm"@,
            Operation::PutBalloon => "/balloon"@,
            Operation::PutCpuConfiguration => "/cpu-config"@,
            Operation::PutEntropyDevice => "/entropy"@,
            Operation::PutGuestBootSource => "/boot-source"@,
            Operation::PutGuestDriveById => "/drives/"@,
            Operation::PutGuestNetworkInterfaceById => "/network-interfaces/"@,
            Operation::PutGuestVsock => "/vsock"@,
            Operation::PutLogger => "/logger"@,
            Operation::PutMachineConfiguration => "/machine-config"@,
            Operation::PutMetrics => "/metrics"@,
            Operation::PutMmds => "/mmds"@,
            Operation::PutMmdsConfig => "/mmds/config"@,
        }
    }

    /// The operations that address a drive or a network interface by its
    /// identifier.
    pub open spec fn by_id(self) -> bool {
        match self {
            Operation::PatchGuestDriveById
            | Operation::PatchGuestNetworkInterfaceById
            | Operation::PutGuestDriveById
            | Operation::PutGuestNetworkInterfaceById => true,
            _ => false,
        }
    }

    /// The endpoint of an operation. A request carries a body unless it is a
    /// `GET`, and only the answer to a `GET` carries a body that is read.
    pub open spec fn spec_endpoint(self) -> EndpointView {
        EndpointView {
            method: self.method(),
            path: self.path(),
            by_id: self.by_id(),
            request_body: self.method() != Method::Get,
            response_body: self.method() == Method::Get,
        }
    }

    /// The endpoint of an operation.
    pub fn endpoint(self) -> (r: Endpoint)
        ensures
            r@ == self.spec_endpoint(),
    {
        match self {
            Operation::CreateSnapshot => Endpoint {
                method: Method::Put,
                path: "/snapshot/create",
                by_id: false,
                request_body: true,
                response_body: false,
            },
            Operation::CreateSyncAction => Endpoint {
                method: Method::Put,
                path: "/actions",
                by_id: false,
                request_body: true,
                response_body: false,
            },
            Operation::DescribeBalloonConfig => Endpoint {
                method: Method::Get,
                path: "/balloon",
                by_id: false,
                request_body: false,
                response_body: true,
            },
            Operation::DescribeBalloonStats => Endpoint {
                method: Method::Get,
                path: "/balloon/statistics",
                by_id: false,
                request_body: false,
                response_body: true,
            },
            Operation::DescribeInstance => Endpoint {
                method: Method::Get,
                path: "/",
                by_id: false,
                request_body: false,
                response_body: true,
            },
            Operation::GetExportVmConfig => Endpoint {
                method: Method::Get,
                path: "/vm/config",
                by_id: false,
                request_body: false,
                response_body: true,
            },
            Operation::GetFirecrackerVersion => Endpoint {
                method: Method::Get,
                path: "/version",
                by_id: false,
                request_body: false,
                response_body: true,
            },
            Operation::GetMachineConfiguration => Endpoint {
                method: Method::Get,
                path: "/machine-config",
                by_id: false,
                request_body: false,
                response_body: true,
            },
            Operation::GetMmds => Endpoint {
                method: Method::Get,
                path: "/mmds",
                by_id: false,
                request_body: false,
                response_body: true,
            },
            Operation::LoadSnapshot => Endpoint {
                method: Method::Put,
                path: "/snapshot/load",
                by_id: false,
                request_body: true,
                response_body: false,
            },
            Operation::PatchBalloon => Endpoint {
                method: Method::Patch,
                path: "/balloon",
                by_id: false,
                request_body: true,
                response_body: false,
            },
            Operation::PatchBalloonStatsInterval => Endpoint {
                method: Method::Patch,
                path: "/balloon/statistics",
                by_id: false,
                request_body: true,
                response_body: false,
            },
            Operation::PatchGuestDriveById => Endpoint {
                method: Method::Patch,
                path: "/drives/",
                by_id: true,
                request_body: true,
                response_body: false,
            },
            Operation::PatchGuestNetworkInterfaceById => Endpoint {
                method: Method::Patch,
                path: "/network-interfaces/",
                by_id: true,
                request_body: true,
                response_body: false,
            },
            Operation::PatchMachineConfiguration => Endpoint {
                method: Method::Patch,
                path: "/machine-config",
                by_id: false,
                request_body: true,
                response_body: false,
            },
            Operation::PatchMmds => Endpoint {
                method: Method::Patch,
                path: "/mmds",
                by_id: false,
                request_body: true,
                response_body: false,
            },
            Operation::PatchVm => Endpoint {
                method: Method::Patch,
                path: "/vm",
                by_id: false,
                request_body: true,
                response_body: false,
            },
            Operation::PutBalloon => Endpoint {
                method: Method::Put,
                path: "/balloon",
                by_id: false,
                request_body: true,
                response_body: false,
            },
            Operation::PutCpuConfiguration => Endpoint {
                method: Method::Put,
                path: "/cpu-config",
                by_id: false,
                request_body: true,
                response_body: false,
            },
            Operation::PutEntropyDevice => Endpoint {
                method: Method::Put,
                path: "/entropy",
                by_id: false,
                request_body: true,
                response_body: false,
            },
            Operation::PutGuestBootSource => Endpoint {
                method: Method::Put,
                path: "/boot-source",
                by_id: false,
                request_body: true,
                response_body: false,
            },
            Operation::PutGuestDriveById => Endpoint {
                method: Method::Put,
                path: "/drives/",
                by_id: true,
                request_body: true,
                response_body: false,
            },
            Operation::PutGuestNetworkInterfaceById => Endpoint {
                method: Method::Put,
                path: "/network-interfaces/",
                by_id: true,
                request_body: true,
                response_body: false,
            },
            Operation::PutGuestVsock => Endpoint {
                method: Method::Put,
                path: "/vsock",
                by_id: false,
                request_body: true,
                response_body: false,
            },
            Operation::PutLogger => Endpoint {
                method: Method::Put,
                path: "/logger",
                by_id: false,
                request_body: true,
                response_body: false,
            },
            Operation::PutMachineConfiguration => Endpoint {
                method: Method::Put,
                path: "/machine-config",
                by_id: false,
                request_body: true,
                response_body: false,
            },
            Operation::PutMetrics => Endpoint {
                method: Method::Put,
                path: "/metrics",
                by_id: false,
                request_body: true,
                response_body: false,
            },
            Operation::PutMmds => Endpoint {
                method: Method::Put,
                path: "/mmds",
                by_id: false,
                request_body: true,
                response_body: false,
            },
            Operation::PutMmdsConfig => Endpoint {
                method: Method::Put,
                path: "/mmds/config",
                by_id: false,
                request_body: true,
                response_body: false,
            },
        }
    }
}

/// The mathematical value of an [`Endpoint`].
pub struct EndpointView {
    pub method: Method,
    pub path: Seq<char>,
    pub by_id: bool,
    pub request_body: bool,
    pub response_body: bool,
}

impl View for Endpoint {
    type V = EndpointView;

    open spec fn view(&self) -> EndpointView {
        EndpointView {
            method: self.method,
            path: self.path@,
            by_id: self.by_id,
            request_body: self.request_body,
            response_body: self.response_body,
        }
    }
}

/// The request target of an operation: its path, followed by the
/// percent-encoded identifier where the operation takes one.
pub open spec fn target(op: Operation, id: Seq<u8>) -> Seq<char> {
    if op.by_id() {
        op.path() + percent_encoded(id)
    } else {
        op.path()
    }
}

impl Operation {
    /// Builds the request target. The identifier is percent-encoded, and is
    /// ignored by an operation that takes none.
    pub fn target(self, id: &str) -> (r: String)
        ensures
            r@ == target(self, id.spec_bytes()),
    {
        let endpoint = self.endpoint();
        let path = String::from_str(endpoint.path);
        if endpoint.by_id {
            let escaped = urlencode(id);
            path.concat(escaped.as_str())
        } else {
            path
        }
    }
}

/// The characters that may stand in a request target: the ASCII characters
/// whose byte is a path byte.
pub open spec fn is_target_char(c: char) -> bool {
    (c as u32) < 128 && is_path_byte(c as u8)
}

/// A character that may stand in a request target is an ASCII character.
pub proof fn lemma_target_char_is_ascii(c: char)
    requires
        is_target_char(c),
    ensures
        '\0' <= c <= '\u{7f}',
{
}

/// The path of every operation begins with a slash and holds nothing but
/// characters that may stand in a request target.
pub proof fn lemma_path_is_well_formed(op: Operation)
    ensures
        op.path().len() > 0,
        op.path()[0] == '/',
        forall|i: int| 0 <= i < op.path().len() ==> is_target_char(#[trigger] op.path()[i]),
{
    reveal_strlit("/snapshot/create");
    reveal_strlit("/actions");
    reveal_strlit("/balloon");
    reveal_strlit("/balloon/statistics");
    reveal_strlit("/");
    reveal_strlit("/vm/config");
    reveal_strlit("/version");
    reveal_strlit("/machine-config");
    reveal_strlit("/mmds");
    reveal_strlit("/snapshot/load");
    reveal_strlit("/drives/");
    reveal_strlit("/network-interfaces/");
    reveal_strlit("/vm");
    reveal_strlit("/cpu-config");
    reveal_strlit("/entropy");
    reveal_strlit("/boot-source");
    reveal_strlit("/vsock");
    reveal_strlit("/logger");
    reveal_strlit("/metrics");
    reveal_strlit("/mmds/config");
}

/// The target of an operation is a well-formed request target, whatever the
/// identifier: it is an absolute path of path bytes. Only its length can
/// keep it from being sent.
pub proof fn lemma_target_is_well_formed(op: Operation, id: Seq<u8>, socket: Seq<u8>)
    ensures
        match fault_in(socket, encode_utf8(target(op, id))) {
            Some(fault) => fault == InvalidUri::TooLong,
            None => true,
        },
{
    let path = op.path();
    let whole = target(op, id);
    lemma_path_is_well_formed(op);
    lemma_encoded_is_safe(id);
    assert forall|i: int| 0 <= i < whole.len() implies is_target_char(#[trigger] whole[i]) by {
        if i >= path.len() {
            assert(whole[i] == percent_encoded(id)[i - path.len()]);
            assert(is_safe_char(whole[i]));
        }
    }
    assert(is_ascii_chars(whole)) by {
        assert forall|i: int| 0 <= i < whole.len() implies '\0' <= #[trigger] whole[i]
            <= '\u{7f}' by {
            assert(is_target_char(whole[i]));
            lemma_target_char_is_ascii(whole[i]);
        }
    }
    is_ascii_chars_encode_utf8(whole);
    let bytes = encode_utf8(whole);
    assert(bytes[0] == 0x2f) by {
        assert(whole[0] == '/');
    }
    assert forall|i: int| 0 <= i < bytes.len() implies is_path_byte(#[trigger] bytes[i]) by {
        assert(is_target_char(whole[i]));
    }
}

/// An operation that takes an identifier has a different target for every
/// identifier.
pub proof fn lemma_target_tells_identifiers_apart(op: Operation, a: Seq<u8>, b: Seq<u8>)
    requires
        op.by_id(),
        target(op, a) == target(op, b),
    ensures
        a == b,
{
    let path = op.path();
    let whole = target(op, a);
    assert(percent_encoded(a) =~= whole.subrange(path.len() as int, whole.len() as int));
    assert(percent_encoded(b) =~= whole.subrange(path.len() as int, whole.len() as int));
    lemma_encoding_is_injective(a, b);
}

} // verus!
