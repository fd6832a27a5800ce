use crate::codec::{
    begin, field, group_codec, is_object, object, read_field, with, write_field, Model,
};
use crate::json::{str_eq, Json, JsonV};
use vstd::prelude::*;

verus! {

/// Variant wrapper containing the real action.
#[derive(Clone, Copy, Debug, Default, PartialEq)]
pub struct InstanceActionInfo {
    /// Enumeration indicating what type of action is contained in the payload
    pub action_type: ActionType,
}

impl DeepView for InstanceActionInfo {
    type V = InstanceActionInfo;

    open spec fn deep_view(&self) -> InstanceActionInfo {
        *self
    }
}

impl InstanceActionInfo {
    pub fn new(action_type: ActionType) -> (r: Self)
        ensures
            r == (InstanceActionInfo { action_type }),
    {
        Self { action_type }
    }
}

impl Model for InstanceActionInfo {
    open spec fn encoded(v: InstanceActionInfo) -> JsonV {
        let m = Seq::empty();
        let m = with::<ActionType>(m, "action_type"@, v.action_type);
        JsonV::Object(m)
    }

    open spec fn decoded(j: JsonV) -> Option<InstanceActionInfo> {
        let action_type = field::<ActionType>(j, "action_type"@);
        if j is Object && action_type is Some {
            Some(
                InstanceActionInfo {
                    action_type: action_type.unwrap(),
                },
            )
        } else {
            None
        }
    }

    open spec fn faithful(v: InstanceActionInfo) -> bool {
        true
    }

    fn to_json(&self) -> (j: Json) {
        let mut m = begin();
        write_field(&mut m, "action_type", &self.action_type);
        object(m)
    }

    fn from_json(j: &Json) -> (r: Option<Self>) {
        if !is_object(j) {
            return None;
        }
        let action_type = read_field::<ActionType>(j, "action_type")?;
        Some(InstanceActionInfo { action_type })
    }

    proof fn round_trip(v: InstanceActionInfo) {
        broadcast use group_codec;

        reveal_strlit("action_type");
        assert("action_type"@.len() == 11);
    }
}

/// Enumeration indicating what type of action is contained in the payload
#[derive(Clone, Copy, Debug, Default, Eq, PartialEq, Ord, PartialOrd, Hash)]
pub enum ActionType {
    #[default]
    FlushMetrics,
    InstanceStart,
    SendCtrlAltDel,
}

impl DeepView for ActionType {
    type V = ActionType;

    open spec fn deep_view(&self) -> ActionType {
        *self
    }
}

impl ActionType {
    /// The name under which a variant travels.
    pub open spec fn name(self) -> Seq<char> {
        match self {
            ActionType::FlushMetrics => "FlushMetrics"@,
            ActionType::InstanceStart => "InstanceStart"@,
            ActionType::SendCtrlAltDel => "SendCtrlAltDel"@,
        }
    }

    /// The variant that travels under a name.
    pub open spec fn named(s: Seq<char>) -> Option<ActionType> {
        if s == "FlushMetrics"@ {
            Some(ActionType::FlushMetrics)
        } else if s == "InstanceStart"@ {
            Some(ActionType::InstanceStart)
        } else if s == "SendCtrlAltDel"@ {
            Some(ActionType::SendCtrlAltDel)
        } else {
            None
        }
    }

    /// The name of the variant.
    pub fn as_str(&self) -> (r: &'static str)
        ensures
            r@ == self.name(),
    {
        match self {
            ActionType::FlushMetrics => "FlushMetrics",
            ActionType::InstanceStart => "InstanceStart",
            ActionType::SendCtrlAltDel => "SendCtrlAltDel",
        }
    }

    /// The variant that a name stands for, if it stands for one.
    pub fn from_name(s: &str) -> (r: Option<ActionType>)
        ensures
            r == Self::named(s@),
    {
        if str_eq(s, "FlushMetrics") {
            Some(ActionType::FlushMetrics)
        } else if str_eq(s, "InstanceStart") {
            Some(ActionType::InstanceStart)
        } else if str_eq(s, "SendCtrlAltDel") {
            Some(ActionType::SendCtrlAltDel)
        } else {
            None
        }
    }

    /// Different variants travel under different names.
    pub proof fn lemma_named_name(v: ActionType)
        ensures
            Self::named(v.name()) == Some(v),
    {
        reveal_strlit("FlushMetrics");
        reveal_strlit("InstanceStart");
        reveal_strlit("SendCtrlAltDel");
        assert("FlushMetrics"@.len() == 12);
        assert("InstanceStart"@.len() == 13);
        assert("SendCtrlAltDel"@.len() == 14);
    }
}

impl Model for ActionType {
    open spec fn encoded(v: ActionType) -> JsonV {
        JsonV::Str(v.name())
    }

    open spec fn decoded(j: JsonV) -> Option<ActionType> {
        match j {
            JsonV::Str(s) => Self::named(s),
            _ => None,
        }
    }

    open spec fn faithful(v: ActionType) -> bool {
        true
    }

    fn to_json(&self) -> (j: Json) {
        Json::Str(self.as_str().to_owned())
    }

    fn from_json(j: &Json) -> (r: Option<ActionType>) {
        match j {
            Json::Str(s) => Self::from_name(s.as_str()),
            _ => None,
        }
    }

    proof fn round_trip(v: ActionType) {
        Self::lemma_named_name(v);
    }
}

} // verus!
