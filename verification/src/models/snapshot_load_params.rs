use crate::codec::{
    begin, field, group_codec, is_object, object, opt_field, read_field, read_opt_field, with,
    with_opt, write_field, write_opt_field, Model,
};
use crate::json::{Json, JsonV};
use crate::models::memory_backend::{MemoryBackend, MemoryBackendView};
use crate::models::network_override::{NetworkOverride, NetworkOverrideView};
use vstd::prelude::*;

verus! {

/// Defines the configuration used for handling snapshot resume. Exactly one of
/// the two `mem_*` fields must be present in the body of the request.
#[derive(Clone, Debug, Default, PartialEq)]
pub struct SnapshotLoadParams {
    /// Enable dirty page tracking to improve space efficiency of diff snapshots.
    pub track_dirty_pages: Option<bool>,
    /// Path to the file that contains the guest memory to be loaded. It is only
    /// allowed if `mem_backend` is not present. This parameter has been
    /// deprecated and it will be removed in future Firecracker release.
    pub mem_file_path: Option<String>,
    pub mem_backend: Option<MemoryBackend>,
    /// Path to the file that contains the microVM state to be loaded.
    pub snapshot_path: String,
    /// When set to true, the vm is also resumed if the snapshot load is
    /// successful.
    pub resume_vm: Option<bool>,
    /// Network host device names to override
    pub network_overrides: Option<Vec<NetworkOverride>>,
}

/// The mathematical value of a [`SnapshotLoadParams`].
pub struct SnapshotLoadParamsView {
    pub track_dirty_pages: Option<bool>,
    pub mem_file_path: Option<Seq<char>>,
    pub mem_backend: Option<MemoryBackendView>,
    pub snapshot_path: Seq<char>,
    pub resume_vm: Option<bool>,
    pub network_overrides: Option<Seq<NetworkOverrideView>>,
}

impl DeepView for SnapshotLoadParams {
    type V = SnapshotLoadParamsView;

    open spec fn deep_view(&self) -> SnapshotLoadParamsView {
        SnapshotLoadParamsView {
            track_dirty_pages: self.track_dirty_pages.deep_view(),
            mem_file_path: self.mem_file_path.deep_view(),
            mem_backend: self.mem_backend.deep_view(),
            snapshot_path: self.snapshot_path.deep_view(),
            resume_vm: self.resume_vm.deep_view(),
            network_overrides: self.network_overrides.deep_view(),
        }
    }
}

impl SnapshotLoadParams {
    pub fn new(snapshot_path: String) -> (r: Self)
        ensures
            r == (SnapshotLoadParams {
                track_dirty_pages: None,
                mem_file_path: None,
                mem_backend: None,
                snapshot_path,
                resume_vm: None,
                network_overrides: None,
            }),
    {
        Self {
            track_dirty_pages: None,
            mem_file_path: None,
            mem_backend: None,
            snapshot_path,
            resume_vm: None,
            network_overrides: None,
        }
    }
}

impl Model for SnapshotLoadParams {
    open spec fn encoded(v: SnapshotLoadParamsView) -> JsonV {
        let m = Seq::empty();
        let m = with_opt::<bool>(m, "track_dirty_pages"@, v.track_dirty_pages);
        let m = with_opt::<String>(m, "mem_file_path"@, v.mem_file_path);
        let m = with_opt::<MemoryBackend>(m, "mem_backend"@, v.mem_backend);
        let m = with::<String>(m, "snapshot_path"@, v.snapshot_path);
        let m = with_opt::<bool>(m, "resume_vm"@, v.resume_vm);
        let m = with_opt::<Vec<NetworkOverride>>(m, "network_overrides"@, v.network_overrides);
        JsonV::Object(m)
    }

    open spec fn decoded(j: JsonV) -> Option<SnapshotLoadParamsView> {
        let track_dirty_pages = opt_field::<bool>(j, "track_dirty_pages"@);
        let mem_file_path = opt_field::<String>(j, "mem_file_path"@);
        let mem_backend = opt_field::<MemoryBackend>(j, "mem_backend"@);
        let snapshot_path = field::<String>(j, "snapshot_path"@);
        let resume_vm = opt_field::<bool>(j, "resume_vm"@);
        let network_overrides = opt_field::<Vec<NetworkOverride>>(j, "network_overrides"@);
        if j is Object
            && track_dirty_pages is Some
            && mem_file_path is Some
            && mem_backend is Some
            && snapshot_path is Some
            && resume_vm is Some
            && network_overrides is Some {
            Some(
                SnapshotLoadParamsView {
                    track_dirty_pages: track_dirty_pages.unwrap(),
                    mem_file_path: mem_file_path.unwrap(),
                    mem_backend: mem_backend.unwrap(),
                    snapshot_path: snapshot_path.unwrap(),
                    resume_vm: resume_vm.unwrap(),
                    network_overrides: network_overrides.unwrap(),
                },
            )
        } else {
            None
        }
    }

    open spec fn faithful(v: SnapshotLoadParamsView) -> bool {
        true
    }

    fn to_json(&self) -> (j: Json) {
        let mut m = begin();
        write_opt_field(&mut m, "track_dirty_pages", &self.track_dirty_pages);
        write_opt_field(&mut m, "mem_file_path", &self.mem_file_path);
        write_opt_field(&mut m, "mem_backend", &self.mem_backend);
        write_field(&mut m, "snapshot_path", &self.snapshot_path);
        write_opt_field(&mut m, "resume_vm", &self.resume_vm);
        write_opt_field(&mut m, "network_overrides", &self.network_overrides);
        object(m)
    }

    fn from_json(j: &Json) -> (r: Option<Self>) {
        if !is_object(j) {
            return None;
        }
        let track_dirty_pages = read_opt_field::<bool>(j, "track_dirty_pages")?;
        let mem_file_path = read_opt_field::<String>(j, "mem_file_path")?;
        let mem_backend = read_opt_field::<MemoryBackend>(j, "mem_backend")?;
        let snapshot_path = read_field::<String>(j, "snapshot_path")?;
        let resume_vm = read_opt_field::<bool>(j, "resume_vm")?;
        let network_overrides = read_opt_field::<Vec<NetworkOverride>>(j, "network_overrides")?;
        Some(
            SnapshotLoadParams {
                track_dirty_pages,
                mem_file_path,
                mem_backend,
                snapshot_path,
                resume_vm,
                network_overrides,
            },
        )
    }

    proof fn round_trip(v: SnapshotLoadParamsView) {
        broadcast use group_codec;

        reveal_strlit("track_dirty_pages");
        reveal_strlit("mem_file_path");
        reveal_strlit("mem_backend");
        reveal_strlit("snapshot_path");
        reveal_strlit("resume_vm");
        reveal_strlit("network_overrides");
        assert("track_dirty_pages"@.len() == 17);
        assert("mem_file_path"@.len() == 13);
        assert("mem_backend"@.len() == 11);
        assert("snapshot_path"@.len() == 13);
        assert("resume_vm"@.len() == 9);
        assert("network_overrides"@.len() == 17);
        assert("track_dirty_pages"@[0] != "network_overrides"@[0]);
        assert("mem_file_path"@[0] != "snapshot_path"@[0]);
    }
}

} // verus!
