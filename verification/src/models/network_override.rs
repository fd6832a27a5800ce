use crate::codec::{
    begin, field, group_codec, is_object, object, read_field, with, write_field, Model,
};
use crate::json::{Json, JsonV};
use vstd::prelude::*;

verus! {

/// Allows for changing the backing TAP device of a network interface during
/// snapshot restore.
#[derive(Clone, Debug, Default, PartialEq)]
pub struct NetworkOverride {
    /// The name of the interface to modify
    pub iface_id: String,
    /// The new host device of the interface
    pub host_dev_name: String,
}

/// The mathematical value of a [`NetworkOverride`].
pub struct NetworkOverrideView {
    pub iface_id: Seq<char>,
    pub host_dev_name: Seq<char>,
}

impl DeepView for NetworkOverride {
    type V = NetworkOverrideView;

    open spec fn deep_view(&self) -> NetworkOverrideView {
        NetworkOverrideView {
            iface_id: self.iface_id.deep_view(),
            host_dev_name: self.host_dev_name.deep_view(),
        }
    }
}

impl NetworkOverride {
    pub fn new(iface_id: String, host_dev_name: String) -> (r: Self)
        ensures
            r == (NetworkOverride { iface_id, host_dev_name }),
    {
        Self { iface_id, host_dev_name }
    }
}

impl Model for NetworkOverride {
    open spec fn encoded(v: NetworkOverrideView) -> JsonV {
        let m = Seq::empty();
        let m = with::<String>(m, "iface_id"@, v.iface_id);
        let m = with::<String>(m, "host_dev_name"@, v.host_dev_name);
        JsonV::Object(m)
    }

    open spec fn decoded(j: JsonV) -> Option<NetworkOverrideView> {
        let iface_id = field::<String>(j, "iface_id"@);
        let host_dev_name = field::<String>(j, "host_dev_name"@);
        if j is Object && iface_id is Some && host_dev_name is Some {
            Some(
                NetworkOverrideView {
                    iface_id: iface_id.unwrap(),
                    host_dev_name: host_dev_name.unwrap(),
                },
            )
        } else {
            None
        }
    }

    open spec fn faithful(v: NetworkOverrideView) -> bool {
        true
    }

    fn to_json(&self) -> (j: Json) {
        let mut m = begin();
        write_field(&mut m, "iface_id", &self.iface_id);
        write_field(&mut m, "host_dev_name", &self.host_dev_name);
        object(m)
    }

    fn from_json(j: &Json) -> (r: Option<Self>) {
        if !is_object(j) {
            return None;
        }
        let iface_id = read_field::<String>(j, "iface_id")?;
        let host_dev_name = read_field::<String>(j, "host_dev_name")?;
        Some(NetworkOverride { iface_id, host_dev_name })
    }

    proof fn round_trip(v: NetworkOverrideView) {
        broadcast use group_codec;

        reveal_strlit("iface_id");
        reveal_strlit("host_dev_name");
        assert("iface_id"@.len() == 8);
        assert("host_dev_name"@.len() == 13);
    }
}

} // verus!
