use crate::codec::{
    begin, field, group_codec, is_object, object, opt_field, read_field, read_opt_field, with,
    with_opt, write_field, write_opt_field, Model,
};
use crate::json::{str_eq, Json, JsonV};
use vstd::prelude::*;

verus! {

/// Defines the MMDS configuration.
#[derive(Clone, Debug, Default, PartialEq)]
pub struct MmdsConfig {
    /// Enumeration indicating the MMDS version to be configured.
    pub version: Option<Version>,
    /// List of the network interface IDs capable of forwarding packets to the
    /// MMDS. Network interface IDs mentioned must be valid at the time of this
    /// request. The net device model will reply to HTTP GET requests sent to the
    /// MMDS address via the interfaces mentioned. In this case, both ARP requests
    /// and TCP segments heading to `ipv4_address` are intercepted by the device
    /// model, and do not reach the associated TAP device.
    pub network_interfaces: Vec<String>,
    /// A valid IPv4 link-local address.
    pub ipv4_address: Option<String>,
    /// MMDS operates compatibly with EC2 IMDS (i.e. responds "text/plain" content
    /// regardless of `Accept` header in requests).
    pub imds_comat: bool,
}

/// The mathematical value of a [`MmdsConfig`].
pub struct MmdsConfigView {
    pub version: Option<Version>,
    pub network_interfaces: Seq<Seq<char>>,
    pub ipv4_address: Option<Seq<char>>,
    pub imds_comat: bool,
}

impl DeepView for MmdsConfig {
    type V = MmdsConfigView;

    open spec fn deep_view(&self) -> MmdsConfigView {
        MmdsConfigView {
            version: self.version.deep_view(),
            network_interfaces: self.network_interfaces.deep_view(),
            ipv4_address: self.ipv4_address.deep_view(),
            imds_comat: self.imds_comat.deep_view(),
        }
    }
}

impl MmdsConfig {
    pub fn new(network_interfaces: Vec<String>) -> (r: Self)
        ensures
            r == (MmdsConfig {
                version: None,
                network_interfaces,
                ipv4_address: None,
                imds_comat: false,
            }),
    {
        Self { version: None, network_interfaces, ipv4_address: None, imds_comat: false }
    }
}

impl Model for MmdsConfig {
    open spec fn encoded(v: MmdsConfigView) -> JsonV {
        let m = Seq::empty();
        let m = with_opt::<Version>(m, "version"@, v.version);
        let m = with::<Vec<String>>(m, "network_interfaces"@, v.network_interfaces);
        let m = with_opt::<String>(m, "ipv4_address"@, v.ipv4_address);
        let m = with::<bool>(m, "imds_comat"@, v.imds_comat);
        JsonV::Object(m)
    }

    open spec fn decoded(j: JsonV) -> Option<MmdsConfigView> {
        let version = opt_field::<Version>(j, "version"@);
        let network_interfaces = field::<Vec<String>>(j, "network_interfaces"@);
        let ipv4_address = opt_field::<String>(j, "ipv4_address"@);
        let imds_comat = field::<bool>(j, "imds_comat"@);
        if j is Object
            && version is Some
            && network_interfaces is Some
            && ipv4_address is Some
            && imds_comat is Some {
            Some(
                MmdsConfigView {
                    version: version.unwrap(),
                    network_interfaces: network_interfaces.unwrap(),
                    ipv4_address: ipv4_address.unwrap(),
                    imds_comat: imds_comat.unwrap(),
                },
            )
        } else {
            None
        }
    }

    open spec fn faithful(v: MmdsConfigView) -> bool {
        true
    }

    fn to_json(&self) -> (j: Json) {
        let mut m = begin();
        write_opt_field(&mut m, "version", &self.version);
        write_field(&mut m, "network_interfaces", &self.network_interfaces);
        write_opt_field(&mut m, "ipv4_address", &self.ipv4_address);
        write_field(&mut m, "imds_comat", &self.imds_comat);
        object(m)
    }

    fn from_json(j: &Json) -> (r: Option<Self>) {
        if !is_object(j) {
            return None;
        }
        let version = read_opt_field::<Version>(j, "version")?;
        let network_interfaces = read_field::<Vec<String>>(j, "network_interfaces")?;
        let ipv4_address = read_opt_field::<String>(j, "ipv4_address")?;
        let imds_comat = read_field::<bool>(j, "imds_comat")?;
        Some(MmdsConfig { version, network_interfaces, ipv4_address, imds_comat })
    }

    proof fn round_trip(v: MmdsConfigView) {
        broadcast use group_codec;

        reveal_strlit("version");
        reveal_strlit("network_interfaces");
        reveal_strlit("ipv4_address");
        reveal_strlit("imds_comat");
        assert("version"@.len() == 7);
        assert("network_interfaces"@.len() == 18);
        assert("ipv4_address"@.len() == 12);
        assert("imds_comat"@.len() == 10);
    }
}

/// Enumeration indicating the MMDS version to be configured.
#[derive(Clone, Copy, Debug, Default, Eq, PartialEq, Ord, PartialOrd, Hash)]
pub enum Version {
    #[default]
    V1,
    V2,
}

impl DeepView for Version {
    type V = Version;

    open spec fn deep_view(&self) -> Version {
        *self
    }
}

impl Version {
    /// The name under which a variant travels.
    pub open spec fn name(self) -> Seq<char> {
        match self {
            Version::V1 => "V1"@,
            Version::V2 => "V2"@,
        }
    }

    /// The variant that travels under a name.
    pub open spec fn named(s: Seq<char>) -> Option<Version> {
        if s == "V1"@ {
            Some(Version::V1)
        } else if s == "V2"@ {
            Some(Version::V2)
        } else {
            None
        }
    }

    /// The name of the variant.
    pub fn as_str(&self) -> (r: &'static str)
        ensures
            r@ == self.name(),
    {
        match self {
            Version::V1 => "V1",
            Version::V2 => "V2",
        }
    }

    /// The variant that a name stands for, if it stands for one.
    pub fn from_name(s: &str) -> (r: Option<Version>)
        ensures
            r == Self::named(s@),
    {
        if str_eq(s, "V1") {
            Some(Version::V1)
        } else if str_eq(s, "V2") {
            Some(Version::V2)
        } else {
            None
        }
    }

    /// Different variants travel under different names.
    pub proof fn lemma_named_name(v: Version)
        ensures
            Self::named(v.name()) == Some(v),
    {
        reveal_strlit("V1");
        reveal_strlit("V2");
        assert("V1"@.len() == 2);
        assert("V2"@.len() == 2);
        assert("V1"@[1] != "V2"@[1]);
    }
}

impl Model for Version {
    open spec fn encoded(v: Version) -> JsonV {
        JsonV::Str(v.name())
    }

    open spec fn decoded(j: JsonV) -> Option<Version> {
        match j {
            JsonV::Str(s) => Self::named(s),
            _ => None,
        }
    }

    open spec fn faithful(v: Version) -> bool {
        true
    }

    fn to_json(&self) -> (j: Json) {
        Json::Str(self.as_str().to_owned())
    }

    fn from_json(j: &Json) -> (r: Option<Version>) {
        match j {
            Json::Str(s) => Self::from_name(s.as_str()),
            _ => None,
        }
    }

    proof fn round_trip(v: Version) {
        Self::lemma_named_name(v);
    }
}

} // verus!
