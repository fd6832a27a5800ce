use crate::codec::{
    begin, field, group_codec, is_object, object, read_field, with, write_field, Model,
};
use crate::json::{str_eq, Json, JsonV};
use vstd::prelude::*;

verus! {

/// Where the guest memory of a snapshot is loaded from.
#[derive(Clone, Debug, Default, PartialEq)]
pub struct MemoryBackend {
    pub backend_type: BackendType,
    /// Based on `backend_type` it is either 1. Path to the file that contains the
    /// guest memory to be loaded 2. Path to the UDS where a process is listening
    /// for a UFFD initialization control payload and open file descriptor that it
    /// can use to serve this process's guest memory page faults
    pub backend_path: String,
}

/// The mathematical value of a [`MemoryBackend`].
pub struct MemoryBackendView {
    pub backend_type: BackendType,
    pub backend_path: Seq<char>,
}

impl DeepView for MemoryBackend {
    type V = MemoryBackendView;

    open spec fn deep_view(&self) -> MemoryBackendView {
        MemoryBackendView {
            backend_type: self.backend_type.deep_view(),
            backend_path: self.backend_path.deep_view(),
        }
    }
}

impl MemoryBackend {
    pub fn new(backend_type: BackendType, backend_path: String) -> (r: Self)
        ensures
            r == (MemoryBackend { backend_type, backend_path }),
    {
        Self { backend_type, backend_path }
    }
}

impl Model for MemoryBackend {
    open spec fn encoded(v: MemoryBackendView) -> JsonV {
        let m = Seq::empty();
        let m = with::<BackendType>(m, "backend_type"@, v.backend_type);
        let m = with::<String>(m, "backend_path"@, v.backend_path);
        JsonV::Object(m)
    }

    open spec fn decoded(j: JsonV) -> Option<MemoryBackendView> {
        let backend_type = field::<BackendType>(j, "backend_type"@);
        let backend_path = field::<String>(j, "backend_path"@);
        if j is Object && backend_type is Some && backend_path is Some {
            Some(
                MemoryBackendView {
                    backend_type: backend_type.unwrap(),
                    backend_path: backend_path.unwrap(),
                },
            )
        } else {
            None
        }
    }

    open spec fn faithful(v: MemoryBackendView) -> bool {
        true
    }

    fn to_json(&self) -> (j: Json) {
        let mut m = begin();
        write_field(&mut m, "backend_type", &self.backend_type);
        write_field(&mut m, "backend_path", &self.backend_path);
        object(m)
    }

    fn from_json(j: &Json) -> (r: Option<Self>) {
        if !is_object(j) {
            return None;
        }
        let backend_type = read_field::<BackendType>(j, "backend_type")?;
        let backend_path = read_field::<String>(j, "backend_path")?;
        Some(MemoryBackend { backend_type, backend_path })
    }

    proof fn round_trip(v: MemoryBackendView) {
        broadcast use group_codec;

        reveal_strlit("backend_type");
        reveal_strlit("backend_path");
        assert("backend_type"@.len() == 12);
        assert("backend_path"@.len() == 12);
        assert("backend_type"@[8] != "backend_path"@[8]);
    }
}

/// The kind of a memory backend.
#[derive(Clone, Copy, Debug, Default, Eq, PartialEq, Ord, PartialOrd, Hash)]
pub enum BackendType {
    #[default]
    File,
    Uffd,
}

impl DeepView for BackendType {
    type V = BackendType;

    open spec fn deep_view(&self) -> BackendType {
        *self
    }
}

impl BackendType {
    /// The name under which a variant travels.
    pub open spec fn name(self) -> Seq<char> {
        match self {
            BackendType::File => "File"@,
            BackendType::Uffd => "Uffd"@,
        }
    }

    /// The variant that travels under a name.
    pub open spec fn named(s: Seq<char>) -> Option<BackendType> {
        if s == "File"@ {
            Some(BackendType::File)
        } else if s == "Uffd"@ {
            Some(BackendType::Uffd)
        } else {
            None
        }
    }

    /// The name of the variant.
    pub fn as_str(&self) -> (r: &'static str)
        ensures
            r@ == self.name(),
    {
        match self {
            BackendType::File => "File",
            BackendType::Uffd => "Uffd",
        }
    }

    /// The variant that a name stands for, if it stands for one.
    pub fn from_name(s: &str) -> (r: Option<BackendType>)
        ensures
            r == Self::named(s@),
    {
        if str_eq(s, "File") {
            Some(BackendType::File)
        } else if str_eq(s, "Uffd") {
            Some(BackendType::Uffd)
        } else {
            None
        }
    }

    /// Different variants travel under different names.
    pub proof fn lemma_named_name(v: BackendType)
        ensures
            Self::named(v.name()) == Some(v),
    {
        reveal_strlit("File");
        reveal_strlit("Uffd");
        assert("File"@.len() == 4);
        assert("Uffd"@.len() == 4);
        assert("File"@[0] != "Uffd"@[0]);
    }
}

impl Model for BackendType {
    open spec fn encoded(v: BackendType) -> JsonV {
        JsonV::Str(v.name())
    }

    open spec fn decoded(j: JsonV) -> Option<BackendType> {
        match j {
            JsonV::Str(s) => Self::named(s),
            _ => None,
        }
    }

    open spec fn faithful(v: BackendType) -> bool {
        true
    }

    fn to_json(&self) -> (j: Json) {
        Json::Str(self.as_str().to_owned())
    }

    fn from_json(j: &Json) -> (r: Option<BackendType>) {
        match j {
            Json::Str(s) => Self::from_name(s.as_str()),
            _ => None,
        }
    }

    proof fn round_trip(v: BackendType) {
        Self::lemma_named_name(v);
    }
}

} // verus!
