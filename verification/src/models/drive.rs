use crate::codec::{
    begin, field, group_codec, is_object, object, opt_field, read_field, read_opt_field, with,
    with_opt, write_field, write_opt_field, Model,
};
use crate::json::{str_eq, Json, JsonV};
use crate::models::rate_limiter::{RateLimiter, RateLimiterView};
use vstd::prelude::*;

verus! {

/// A block device of the guest.
#[derive(Clone, Debug, Default, PartialEq)]
pub struct Drive {
    pub drive_id: String,
    /// Represents the unique id of the boot partition of this device. It is
    /// optional and it will be taken into account only if the is_root_device
    /// field is true.
    pub partuuid: Option<String>,
    pub is_root_device: bool,
    /// Represents the caching strategy for the block device.
    pub cache_type: Option<CacheType>,
    /// Is block read only. This field is required for virtio-block config and
    /// should be omitted for vhost-user-block configuration.
    pub is_read_only: Option<bool>,
    /// Host level path for the guest drive. This field is required for
    /// virtio-block config and should be omitted for vhost-user-block
    /// configuration.
    pub path_on_host: Option<String>,
    pub rate_limiter: Option<Box<RateLimiter>>,
    /// Type of the IO engine used by the device. "Async" is supported on host
    /// kernels newer than 5.10.51. This field is optional for virtio-block config
    /// and should be omitted for vhost-user-block configuration.
    pub io_engine: Option<IoEngine>,
    /// Path to the socket of vhost-user-block backend. This field is required for
    /// vhost-user-block config should be omitted for virtio-block configuration.
    pub socket: Option<String>,
}

/// The mathematical value of a [`Drive`].
pub struct DriveView {
    pub drive_id: Seq<char>,
    pub partuuid: Option<Seq<char>>,
    pub is_root_device: bool,
    pub cache_type: Option<CacheType>,
    pub is_read_only: Option<bool>,
    pub path_on_host: Option<Seq<char>>,
    pub rate_limiter: Option<RateLimiterView>,
    pub io_engine: Option<IoEngine>,
    pub socket: Option<Seq<char>>,
}

impl DeepView for Drive {
    type V = DriveView;

    open spec fn deep_view(&self) -> DriveView {
        DriveView {
            drive_id: self.drive_id.deep_view(),
            partuuid: self.partuuid.deep_view(),
            is_root_device: self.is_root_device.deep_view(),
            cache_type: self.cache_type.deep_view(),
            is_read_only: self.is_read_only.deep_view(),
            path_on_host: self.path_on_host.deep_view(),
            rate_limiter: self.rate_limiter.deep_view(),
            io_engine: self.io_engine.deep_view(),
            socket: self.socket.deep_view(),
        }
    }
}

impl Drive {
    pub fn new(drive_id: String, is_root_device: bool) -> (r: Self)
        ensures
            r == (Drive {
                drive_id,
                partuuid: None,
                is_root_device,
                cache_type: None,
                is_read_only: None,
                path_on_host: None,
                rate_limiter: None,
                io_engine: None,
                socket: None,
            }),
    {
        Self {
            drive_id,
            partuuid: None,
            is_root_device,
            cache_type: None,
            is_read_only: None,
            path_on_host: None,
            rate_limiter: None,
            io_engine: None,
            socket: None,
        }
    }
}

impl Model for Drive {
    open spec fn encoded(v: DriveView) -> JsonV {
        let m = Seq::empty();
        let m = with::<String>(m, "drive_id"@, v.drive_id);
        let m = with_opt::<String>(m, "partuuid"@, v.partuuid);
        let m = with::<bool>(m, "is_root_device"@, v.is_root_device);
        let m = with_opt::<CacheType>(m, "cache_type"@, v.cache_type);
        let m = with_opt::<bool>(m, "is_read_only"@, v.is_read_only);
        let m = with_opt::<String>(m, "path_on_host"@, v.path_on_host);
        let m = with_opt::<Box<RateLimiter>>(m, "rate_limiter"@, v.rate_limiter);
        let m = with_opt::<IoEngine>(m, "io_engine"@, v.io_engine);
        let m = with_opt::<String>(m, "socket"@, v.socket);
        JsonV::Object(m)
    }

    open spec fn decoded(j: JsonV) -> Option<DriveView> {
        let drive_id = field::<String>(j, "drive_id"@);
        let partuuid = opt_field::<String>(j, "partuuid"@);
        let is_root_device = field::<bool>(j, "is_root_device"@);
        let cache_type = opt_field::<CacheType>(j, "cache_type"@);
        let is_read_only = opt_field::<bool>(j, "is_read_only"@);
        let path_on_host = opt_field::<String>(j, "path_on_host"@);
        let rate_limiter = opt_field::<Box<RateLimiter>>(j, "rate_limiter"@);
        let io_engine = opt_field::<IoEngine>(j, "io_engine"@);
        let socket = opt_field::<String>(j, "socket"@);
        if j is Object
            && drive_id is Some
            && partuuid is Some
            && is_root_device is Some
            && cache_type is Some
            && is_read_only is Some
            && path_on_host is Some
            && rate_limiter is Some
            && io_engine is Some
            && socket is Some {
            Some(
                DriveView {
                    drive_id: drive_id.unwrap(),
                    partuuid: partuuid.unwrap(),
                    is_root_device: is_root_device.unwrap(),
                    cache_type: cache_type.unwrap(),
                    is_read_only: is_read_only.unwrap(),
                    path_on_host: path_on_host.unwrap(),
                    rate_limiter: rate_limiter.unwrap(),
                    io_engine: io_engine.unwrap(),
                    socket: socket.unwrap(),
                },
            )
        } else {
            None
        }
    }

    open spec fn faithful(v: DriveView) -> bool {
        true
    }

    fn to_json(&self) -> (j: Json) {
        let mut m = begin();
        write_field(&mut m, "drive_id", &self.drive_id);
        write_opt_field(&mut m, "partuuid", &self.partuuid);
        write_field(&mut m, "is_root_device", &self.is_root_device);
        write_opt_field(&mut m, "cache_type", &self.cache_type);
        write_opt_field(&mut m, "is_read_only", &self.is_read_only);
        write_opt_field(&mut m, "path_on_host", &self.path_on_host);
        write_opt_field(&mut m, "rate_limiter", &self.rate_limiter);
        write_opt_field(&mut m, "io_engine", &self.io_engine);
        write_opt_field(&mut m, "socket", &self.socket);
        object(m)
    }

    fn from_json(j: &Json) -> (r: Option<Self>) {
        if !is_object(j) {
            return None;
        }
        let drive_id = read_field::<String>(j, "drive_id")?;
        let partuuid = read_opt_field::<String>(j, "partuuid")?;
        let is_root_device = read_field::<bool>(j, "is_root_device")?;
        let cache_type = read_opt_field::<CacheType>(j, "cache_type")?;
        let is_read_only = read_opt_field::<bool>(j, "is_read_only")?;
        let path_on_host = read_opt_field::<String>(j, "path_on_host")?;
        let rate_limiter = read_opt_field::<Box<RateLimiter>>(j, "rate_limiter")?;
        let io_engine = read_opt_field::<IoEngine>(j, "io_engine")?;
        let socket = read_opt_field::<String>(j, "socket")?;
        Some(
            Drive {
                drive_id,
                partuuid,
                is_root_device,
                cache_type,
                is_read_only,
                path_on_host,
                rate_limiter,
                io_engine,
                socket,
            },
        )
    }

    proof fn round_trip(v: DriveView) {
        broadcast use group_codec;

        reveal_strlit("drive_id");
        reveal_strlit("partuuid");
        reveal_strlit("is_root_device");
        reveal_strlit("cache_type");
        reveal_strlit("is_read_only");
        reveal_strlit("path_on_host");
        reveal_strlit("rate_limiter");
        reveal_strlit("io_engine");
        reveal_strlit("socket");
        assert("drive_id"@.len() == 8);
        assert("partuuid"@.len() == 8);
        assert("is_root_device"@.len() == 14);
        assert("cache_type"@.len() == 10);
        assert("is_read_only"@.len() == 12);
        assert("path_on_host"@.len() == 12);
        assert("rate_limiter"@.len() == 12);
        assert("io_engine"@.len() == 9);
        assert("socket"@.len() == 6);
        assert("drive_id"@[0] != "partuuid"@[0]);
        assert("is_read_only"@[0] != "path_on_host"@[0]);
        assert("is_read_only"@[0] != "rate_limiter"@[0]);
        assert("path_on_host"@[0] != "rate_limiter"@[0]);
    }
}

/// Represents the caching strategy for the block device.
#[derive(Clone, Copy, Debug, Default, Eq, PartialEq, Ord, PartialOrd, Hash)]
pub enum CacheType {
    #[default]
    Unsafe,
    Writeback,
}

impl DeepView for CacheType {
    type V = CacheType;

    open spec fn deep_view(&self) -> CacheType {
        *self
    }
}

impl CacheType {
    /// The name under which a variant travels.
    pub open spec fn name(self) -> Seq<char> {
        match self {
            CacheType::Unsafe => "Unsafe"@,
            CacheType::Writeback => "Writeback"@,
        }
    }

    /// The variant that travels under a name.
    pub open spec fn named(s: Seq<char>) -> Option<CacheType> {
        if s == "Unsafe"@ {
            Some(CacheType::Unsafe)
        } else if s == "Writeback"@ {
            Some(CacheType::Writeback)
        } else {
            None
        }
    }

    /// The name of the variant.
    pub fn as_str(&self) -> (r: &'static str)
        ensures
            r@ == self.name(),
    {
        match self {
            CacheType::Unsafe => "Unsafe",
            CacheType::Writeback => "Writeback",
        }
    }

    /// The variant that a name stands for, if it stands for one.
    pub fn from_name(s: &str) -> (r: Option<CacheType>)
        ensures
            r == Self::named(s@),
    {
        if str_eq(s, "Unsafe") {
            Some(CacheType::Unsafe)
        } else if str_eq(s, "Writeback") {
            Some(CacheType::Writeback)
        } else {
            None
        }
    }

    /// Different variants travel under different names.
    pub proof fn lemma_named_name(v: CacheType)
        ensures
            Self::named(v.name()) == Some(v),
    {
        reveal_strlit("Unsafe");
        reveal_strlit("Writeback");
        assert("Unsafe"@.len() == 6);
        assert("Writeback"@.len() == 9);
    }
}

impl Model for CacheType {
    open spec fn encoded(v: CacheType) -> JsonV {
        JsonV::Str(v.name())
    }

    open spec fn decoded(j: JsonV) -> Option<CacheType> {
        match j {
            JsonV::Str(s) => Self::named(s),
            _ => None,
        }
    }

    open spec fn faithful(v: CacheType) -> bool {
        true
    }

    fn to_json(&self) -> (j: Json) {
        Json::Str(self.as_str().to_owned())
    }

    fn from_json(j: &Json) -> (r: Option<CacheType>) {
        match j {
            Json::Str(s) => Self::from_name(s.as_str()),
            _ => None,
        }
    }

    proof fn round_trip(v: CacheType) {
        Self::lemma_named_name(v);
    }
}

/// Type of the IO engine used by the device. "Async" is supported on host kernels
/// newer than 5.10.51. This field is optional for virtio-block config and should
/// be omitted for vhost-user-block configuration.
#[derive(Clone, Copy, Debug, Default, Eq, PartialEq, Ord, PartialOrd, Hash)]
pub enum IoEngine {
    #[default]
    Sync,
    Async,
}

impl DeepView for IoEngine {
    type V = IoEngine;

    open spec fn deep_view(&self) -> IoEngine {
        *self
    }
}

impl IoEngine {
    /// The name under which a variant travels.
    pub open spec fn name(self) -> Seq<char> {
        match self {
            IoEngine::Sync => "Sync"@,
            IoEngine::Async => "Async"@,
        }
    }

    /// The variant that travels under a name.
    pub open spec fn named(s: Seq<char>) -> Option<IoEngine> {
        if s == "Sync"@ {
            Some(IoEngine::Sync)
        } else if s == "Async"@ {
            Some(IoEngine::Async)
        } else {
            None
        }
    }

    /// The name of the variant.
    pub fn as_str(&self) -> (r: &'static str)
        ensures
            r@ == self.name(),
    {
        match self {
            IoEngine::Sync => "Sync",
            IoEngine::Async => "Async",
        }
    }

    /// The variant that a name stands for, if it stands for one.
    pub fn from_name(s: &str) -> (r: Option<IoEngine>)
        ensures
            r == Self::named(s@),
    {
        if str_eq(s, "Sync") {
            Some(IoEngine::Sync)
        } else if str_eq(s, "Async") {
            Some(IoEngine::Async)
        } else {
            None
        }
    }

    /// Different variants travel under different names.
    pub proof fn lemma_named_name(v: IoEngine)
        ensures
            Self::named(v.name()) == Some(v),
    {
        reveal_strlit("Sync");
        reveal_strlit("Async");
        assert("Sync"@.len() == 4);
        assert("Async"@.len() == 5);
    }
}

impl Model for IoEngine {
    open spec fn encoded(v: IoEngine) -> JsonV {
        JsonV::Str(v.name())
    }

    open spec fn decoded(j: JsonV) -> Option<IoEngine> {
        match j {
            JsonV::Str(s) => Self::named(s),
            _ => None,
        }
    }

    open spec fn faithful(v: IoEngine) -> bool {
        true
    }

    fn to_json(&self) -> (j: Json) {
        Json::Str(self.as_str().to_owned())
    }

    fn from_json(j: &Json) -> (r: Option<IoEngine>) {
        match j {
            Json::Str(s) => Self::from_name(s.as_str()),
            _ => None,
        }
    }

    proof fn round_trip(v: IoEngine) {
        Self::lemma_named_name(v);
    }
}

} // verus!
