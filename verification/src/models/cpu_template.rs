use crate::codec::Model;
use crate::json::{str_eq, Json, JsonV};
use vstd::prelude::*;

verus! {

/// The CPU Template defines a set of flags to be disabled from the microvm so
/// that the features exposed to the guest are the same as in the selected
/// instance type. This parameter has been deprecated and it will be removed in
/// future Firecracker release.
#[derive(Clone, Copy, Debug, Default, Eq, PartialEq, Ord, PartialOrd, Hash)]
pub enum CpuTemplate {
    #[default]
    C3,
    T2,
    T2S,
    T2CL,
    T2A,
    V1N1,
    Unset,
}

impl DeepView for CpuTemplate {
    type V = CpuTemplate;

    open spec fn deep_view(&self) -> CpuTemplate {
        *self
    }
}

impl CpuTemplate {
    /// The name under which a variant travels.
    pub open spec fn name(self) -> Seq<char> {
        match self {
            CpuTemplate::C3 => "C3"@,
            CpuTemplate::T2 => "T2"@,
            CpuTemplate::T2S => "T2S"@,
            CpuTemplate::T2CL => "T2CL"@,
            CpuTemplate::T2A => "T2A"@,
            CpuTemplate::V1N1 => "V1N1"@,
            CpuTemplate::Unset => "None"@,
        }
    }

    /// The variant that travels under a name.
    pub open spec fn named(s: Seq<char>) -> Option<CpuTemplate> {
        if s == "C3"@ {
            Some(CpuTemplate::C3)
        } else if s == "T2"@ {
            Some(CpuTemplate::T2)
        } else if s == "T2S"@ {
            Some(CpuTemplate::T2S)
        } else if s == "T2CL"@ {
            Some(CpuTemplate::T2CL)
        } else if s == "T2A"@ {
            Some(CpuTemplate::T2A)
        } else if s == "V1N1"@ {
            Some(CpuTemplate::V1N1)
        } else if s == "None"@ {
            Some(CpuTemplate::Unset)
        } else {
            None
        }
    }

    /// The name of the variant.
    pub fn as_str(&self) -> (r: &'static str)
        ensures
            r@ == self.name(),
    {
        match self {
            CpuTemplate::C3 => "C3",
            CpuTemplate::T2 => "T2",
            CpuTemplate::T2S => "T2S",
            CpuTemplate::T2CL => "T2CL",
            CpuTemplate::T2A => "T2A",
            CpuTemplate::V1N1 => "V1N1",
            CpuTemplate::Unset => "None",
        }
    }

    /// The variant that a name stands for, if it stands for one.
    pub fn from_name(s: &str) -> (r: Option<CpuTemplate>)
        ensures
            r == Self::named(s@),
    {
        if str_eq(s, "C3") {
            Some(CpuTemplate::C3)
        } else if str_eq(s, "T2") {
            Some(CpuTemplate::T2)
        } else if str_eq(s, "T2S") {
            Some(CpuTemplate::T2S)
        } else if str_eq(s, "T2CL") {
            Some(CpuTemplate::T2CL)
        } else if str_eq(s, "T2A") {
            Some(CpuTemplate::T2A)
        } else if str_eq(s, "V1N1") {
            Some(CpuTemplate::V1N1)
        } else if str_eq(s, "None") {
            Some(CpuTemplate::Unset)
        } else {
            None
        }
    }

    /// The variant's name as an owned string.
    pub fn to_string(&self) -> (r: String)
        ensures
            r@ == self.name(),
    {
        self.as_str().to_owned()
    }

    /// Different variants travel under different names.
    pub proof fn lemma_named_name(v: CpuTemplate)
        ensures
            Self::named(v.name()) == Some(v),
    {
        reveal_strlit("C3");
        reveal_strlit("T2");
        reveal_strlit("T2S");
        reveal_strlit("T2CL");
        reveal_strlit("T2A");
        reveal_strlit("V1N1");
        reveal_strlit("None");
        assert("C3"@.len() == 2);
        assert("T2"@.len() == 2);
        assert("T2S"@.len() == 3);
        assert("T2CL"@.len() == 4);
        assert("T2A"@.len() == 3);
        assert("V1N1"@.len() == 4);
        assert("None"@.len() == 4);
        assert("C3"@[0] != "T2"@[0]);
        assert("T2S"@[2] != "T2A"@[2]);
        assert("T2CL"@[0] != "V1N1"@[0]);
        assert("T2CL"@[0] != "None"@[0]);
        assert("V1N1"@[0] != "None"@[0]);
    }
}

impl Model for CpuTemplate {
    open spec fn encoded(v: CpuTemplate) -> JsonV {
        JsonV::Str(v.name())
    }

    open spec fn decoded(j: JsonV) -> Option<CpuTemplate> {
        match j {
            JsonV::Str(s) => Self::named(s),
            _ => None,
        }
    }

    open spec fn faithful(v: CpuTemplate) -> bool {
        true
    }

    fn to_json(&self) -> (j: Json) {
        Json::Str(self.as_str().to_owned())
    }

    fn from_json(j: &Json) -> (r: Option<CpuTemplate>) {
        match j {
            Json::Str(s) => Self::from_name(s.as_str()),
            _ => None,
        }
    }

    proof fn round_trip(v: CpuTemplate) {
        Self::lemma_named_name(v);
    }
}

} // verus!
