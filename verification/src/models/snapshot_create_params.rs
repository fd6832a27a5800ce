use crate::codec::{
    begin, field, group_codec, is_object, object, opt_field, read_field, read_opt_field, with,
    with_opt, write_field, write_opt_field, Model,
};
use crate::json::{str_eq, Json, JsonV};
use vstd::prelude::*;

verus! {

/// What a snapshot holds and where it is written.
#[derive(Clone, Debug, Default, PartialEq)]
pub struct SnapshotCreateParams {
    /// Path to the file that will contain the guest memory.
    pub mem_file_path: String,
    /// Path to the file that will contain the microVM state.
    pub snapshot_path: String,
    /// Type of snapshot to create. It is optional and by default, a full snapshot
    /// is created.
    pub snapshot_type: Option<SnapshotType>,
}

/// The mathematical value of a [`SnapshotCreateParams`].
pub struct SnapshotCreateParamsView {
    pub mem_file_path: Seq<char>,
    pub snapshot_path: Seq<char>,
    pub snapshot_type: Option<SnapshotType>,
}

impl DeepView for SnapshotCreateParams {
    type V = SnapshotCreateParamsView;

    open spec fn deep_view(&self) -> SnapshotCreateParamsView {
        SnapshotCreateParamsView {
            mem_file_path: self.mem_file_path.deep_view(),
            snapshot_path: self.snapshot_path.deep_view(),
            snapshot_type: self.snapshot_type.deep_view(),
        }
    }
}

impl SnapshotCreateParams {
    pub fn new(mem_file_path: String, snapshot_path: String) -> (r: Self)
        ensures
            r == (SnapshotCreateParams { mem_file_path, snapshot_path, snapshot_type: None }),
    {
        Self { mem_file_path, snapshot_path, snapshot_type: None }
    }
}

impl Model for SnapshotCreateParams {
    open spec fn encoded(v: SnapshotCreateParamsView) -> JsonV {
        let m = Seq::empty();
        let m = with::<String>(m, "mem_file_path"@, v.mem_file_path);
        let m = with::<String>(m, "snapshot_path"@, v.snapshot_path);
        let m = with_opt::<SnapshotType>(m, "snapshot_type"@, v.snapshot_type);
        JsonV::Object(m)
    }

    open spec fn decoded(j: JsonV) -> Option<SnapshotCreateParamsView> {
        let mem_file_path = field::<String>(j, "mem_file_path"@);
        let snapshot_path = field::<String>(j, "snapshot_path"@);
        let snapshot_type = opt_field::<SnapshotType>(j, "snapshot_type"@);
        if j is Object && mem_file_path is Some && snapshot_path is Some && snapshot_type is Some {
            Some(
                SnapshotCreateParamsView {
                    mem_file_path: mem_file_path.unwrap(),
                    snapshot_path: snapshot_path.unwrap(),
                    snapshot_type: snapshot_type.unwrap(),
                },
            )
        } else {
            None
        }
    }

    open spec fn faithful(v: SnapshotCreateParamsView) -> bool {
        true
    }

    fn to_json(&self) -> (j: Json) {
        let mut m = begin();
        write_field(&mut m, "mem_file_path", &self.mem_file_path);
        write_field(&mut m, "snapshot_path", &self.snapshot_path);
        write_opt_field(&mut m, "snapshot_type", &self.snapshot_type);
        object(m)
    }

    fn from_json(j: &Json) -> (r: Option<Self>) {
        if !is_object(j) {
            return None;
        }
        let mem_file_path = read_field::<String>(j, "mem_file_path")?;
        let snapshot_path = read_field::<String>(j, "snapshot_path")?;
        let snapshot_type = read_opt_field::<SnapshotType>(j, "snapshot_type")?;
        Some(SnapshotCreateParams { mem_file_path, snapshot_path, snapshot_type })
    }

    proof fn round_trip(v: SnapshotCreateParamsView) {
        broadcast use group_codec;

        reveal_strlit("mem_file_path");
        reveal_strlit("snapshot_path");
        reveal_strlit("snapshot_type");
        assert("mem_file_path"@.len() == 13);
        assert("snapshot_path"@.len() == 13);
        assert("snapshot_type"@.len() == 13);
        assert("mem_file_path"@[0] != "snapshot_path"@[0]);
        assert("mem_file_path"@[0] != "snapshot_type"@[0]);
        assert("snapshot_path"@[9] != "snapshot_type"@[9]);
    }
}

/// Type of snapshot to create. It is optional and by default, a full snapshot is
/// created.
#[derive(Clone, Copy, Debug, Default, Eq, PartialEq, Ord, PartialOrd, Hash)]
pub enum SnapshotType {
    #[default]
    Full,
    Diff,
}

impl DeepView for SnapshotType {
    type V = SnapshotType;

    open spec fn deep_view(&self) -> SnapshotType {
        *self
    }
}

impl SnapshotType {
    /// The name under which a variant travels.
    pub open spec fn name(self) -> Seq<char> {
        match self {
            SnapshotType::Full => "Full"@,
            SnapshotType::Diff => "Diff"@,
        }
    }

    /// The variant that travels under a name.
    pub open spec fn named(s: Seq<char>) -> Option<SnapshotType> {
        if s == "Full"@ {
            Some(SnapshotType::Full)
        } else if s == "Diff"@ {
            Some(SnapshotType::Diff)
        } else {
            None
        }
    }

    /// The name of the variant.
    pub fn as_str(&self) -> (r: &'static str)
        ensures
            r@ == self.name(),
    {
        match self {
            SnapshotType::Full => "Full",
            SnapshotType::Diff => "Diff",
        }
    }

    /// The variant that a name stands for, if it stands for one.
    pub fn from_name(s: &str) -> (r: Option<SnapshotType>)
        ensures
            r == Self::named(s@),
    {
        if str_eq(s, "Full") {
            Some(SnapshotType::Full)
        } else if str_eq(s, "Diff") {
            Some(SnapshotType::Diff)
        } else {
            None
        }
    }

    /// Different variants travel under different names.
    pub proof fn lemma_named_name(v: SnapshotType)
        ensures
            Self::named(v.name()) == Some(v),
    {
        reveal_strlit("Full");
        reveal_strlit("Diff");
        assert("Full"@.len() == 4);
        assert("Diff"@.len() == 4);
        assert("Full"@[0] != "Diff"@[0]);
    }
}

impl Model for SnapshotType {
    open spec fn encoded(v: SnapshotType) -> JsonV {
        JsonV::Str(v.name())
    }

    open spec fn decoded(j: JsonV) -> Option<SnapshotType> {
        match j {
            JsonV::Str(s) => Self::named(s),
            _ => None,
        }
    }

    open spec fn faithful(v: SnapshotType) -> bool {
        true
    }

    fn to_json(&self) -> (j: Json) {
        Json::Str(self.as_str().to_owned())
    }

    fn from_json(j: &Json) -> (r: Option<SnapshotType>) {
        match j {
            Json::Str(s) => Self::from_name(s.as_str()),
            _ => None,
        }
    }

    proof fn round_trip(v: SnapshotType) {
        Self::lemma_named_name(v);
    }
}

} // verus!
