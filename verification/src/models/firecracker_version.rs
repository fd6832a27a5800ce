use crate::codec::{
    begin, field, group_codec, is_object, object, read_field, with, write_field, Model,
};
use crate::json::{Json, JsonV};
use vstd::prelude::*;

verus! {

/// Describes the Firecracker version.
#[derive(Clone, Debug, Default, PartialEq)]
pub struct FirecrackerVersion {
    /// Firecracker build version.
    pub firecracker_version: String,
}

/// The mathematical value of a [`FirecrackerVersion`].
pub struct FirecrackerVersionView {
    pub firecracker_version: Seq<char>,
}

impl DeepView for FirecrackerVersion {
    type V = FirecrackerVersionView;

    open spec fn deep_view(&self) -> FirecrackerVersionView {
        FirecrackerVersionView {
            firecracker_version: self.firecracker_version.deep_view(),
        }
    }
}

impl FirecrackerVersion {
    pub fn new(firecracker_version: String) -> (r: Self)
        ensures
            r == (FirecrackerVersion { firecracker_version }),
    {
        Self { firecracker_version }
    }
}

impl Model for FirecrackerVersion {
    open spec fn encoded(v: FirecrackerVersionView) -> JsonV {
        let m = Seq::empty();
        let m = with::<String>(m, "firecracker_version"@, v.firecracker_version);
        JsonV::Object(m)
    }

    open spec fn decoded(j: JsonV) -> Option<FirecrackerVersionView> {
        let firecracker_version = field::<String>(j, "firecracker_version"@);
        if j is Object && firecracker_version is Some {
            Some(
                FirecrackerVersionView {
                    firecracker_version: firecracker_version.unwrap(),
                },
            )
        } else {
            None
        }
    }

    open spec fn faithful(v: FirecrackerVersionView) -> bool {
        true
    }

    fn to_json(&self) -> (j: Json) {
        let mut m = begin();
        write_field(&mut m, "firecracker_version", &self.firecracker_version);
        object(m)
    }

    fn from_json(j: &Json) -> (r: Option<Self>) {
        if !is_object(j) {
            return None;
        }
        let firecracker_version = read_field::<String>(j, "firecracker_version")?;
        Some(FirecrackerVersion { firecracker_version })
    }

    proof fn round_trip(v: FirecrackerVersionView) {
        broadcast use group_codec;

        reveal_strlit("firecracker_version");
        assert("firecracker_version"@.len() == 19);
    }
}

} // verus!
