use crate::codec::{
    begin, field, group_codec, is_object, object, read_field, with, write_field, Model,
};
use crate::json::{str_eq, Json, JsonV};
use vstd::prelude::*;

verus! {

/// Describes MicroVM instance information.
#[derive(Clone, Debug, Default, PartialEq)]
pub struct InstanceInfo {
    /// Application name.
    pub app_name: String,
    /// MicroVM / instance ID.
    pub id: String,
    /// The current detailed state (Not started, Running, Paused) of the
    /// Firecracker instance. This value is read-only for the control-plane.
    pub state: State,
    /// MicroVM hypervisor build version.
    pub vmm_version: String,
}

/// The mathematical value of a [`InstanceInfo`].
pub struct InstanceInfoView {
    pub app_name: Seq<char>,
    pub id: Seq<char>,
    pub state: State,
    pub vmm_version: Seq<char>,
}

impl DeepView for InstanceInfo {
    type V = InstanceInfoView;

    open spec fn deep_view(&self) -> InstanceInfoView {
        InstanceInfoView {
            app_name: self.app_name.deep_view(),
            id: self.id.deep_view(),
            state: self.state.deep_view(),
            vmm_version: self.vmm_version.deep_view(),
        }
    }
}

impl InstanceInfo {
    pub fn new(app_name: String, id: String, state: State, vmm_version: String) -> (r: Self)
        ensures
            r == (InstanceInfo { app_name, id, state, vmm_version }),
    {
        Self { app_name, id, state, vmm_version }
    }
}

impl Model for InstanceInfo {
    open spec fn encoded(v: InstanceInfoView) -> JsonV {
        let m = Seq::empty();
        let m = with::<String>(m, "app_name"@, v.app_name);
        let m = with::<String>(m, "id"@, v.id);
        let m = with::<State>(m, "state"@, v.state);
        let m = with::<String>(m, "vmm_version"@, v.vmm_version);
        JsonV::Object(m)
    }

    open spec fn decoded(j: JsonV) -> Option<InstanceInfoView> {
        let app_name = field::<String>(j, "app_name"@);
        let id = field::<String>(j, "id"@);
        let state = field::<State>(j, "state"@);
        let vmm_version = field::<String>(j, "vmm_version"@);
        if j is Object && app_name is Some && id is Some && state is Some && vmm_version is Some {
            Some(
                InstanceInfoView {
                    app_name: app_name.unwrap(),
                    id: id.unwrap(),
                    state: state.unwrap(),
                    vmm_version: vmm_version.unwrap(),
                },
            )
        } else {
            None
        }
    }

    open spec fn faithful(v: InstanceInfoView) -> bool {
        true
    }

    fn to_json(&self) -> (j: Json) {
        let mut m = begin();
        write_field(&mut m, "app_name", &self.app_name);
        write_field(&mut m, "id", &self.id);
        write_field(&mut m, "state", &self.state);
        write_field(&mut m, "vmm_version", &self.vmm_version);
        object(m)
    }

    fn from_json(j: &Json) -> (r: Option<Self>) {
        if !is_object(j) {
            return None;
        }
        let app_name = read_field::<String>(j, "app_name")?;
        let id = read_field::<String>(j, "id")?;
        let state = read_field::<State>(j, "state")?;
        let vmm_version = read_field::<String>(j, "vmm_version")?;
        Some(InstanceInfo { app_name, id, state, vmm_version })
    }

    proof fn round_trip(v: InstanceInfoView) {
        broadcast use group_codec;

        reveal_strlit("app_name");
        reveal_strlit("id");
        reveal_strlit("state");
        reveal_strlit("vmm_version");
        assert("app_name"@.len() == 8);
        assert("id"@.len() == 2);
        assert("state"@.len() == 5);
        assert("vmm_version"@.len() == 11);
    }
}

/// The current detailed state (Not started, Running, Paused) of the Firecracker
/// instance. This value is read-only for the control-plane.
#[derive(Clone, Copy, Debug, Default, Eq, PartialEq, Ord, PartialOrd, Hash)]
pub enum State {
    #[default]
    NotStarted,
    Running,
    Paused,
}

impl DeepView for State {
    type V = State;

    open spec fn deep_view(&self) -> State {
        *self
    }
}

impl State {
    /// The name under which a variant travels.
    pub open spec fn name(self) -> Seq<char> {
        match self {
            State::NotStarted => "Not started"@,
            State::Running => "Running"@,
            State::Paused => "Paused"@,
        }
    }

    /// The variant that travels under a name.
    pub open spec fn named(s: Seq<char>) -> Option<State> {
        if s == "Not started"@ {
            Some(State::NotStarted)
        } else if s == "Running"@ {
            Some(State::Running)
        } else if s == "Paused"@ {
            Some(State::Paused)
        } else {
            None
        }
    }

    /// The name of the variant.
    pub fn as_str(&self) -> (r: &'static str)
        ensures
            r@ == self.name(),
    {
        match self {
            State::NotStarted => "Not started",
            State::Running => "Running",
            State::Paused => "Paused",
        }
    }

    /// The variant that a name stands for, if it stands for one.
    pub fn from_name(s: &str) -> (r: Option<State>)
        ensures
            r == Self::named(s@),
    {
        if str_eq(s, "Not started") {
            Some(State::NotStarted)
        } else if str_eq(s, "Running") {
            Some(State::Running)
        } else if str_eq(s, "Paused") {
            Some(State::Paused)
        } else {
            None
        }
    }

    /// Different variants travel under different names.
    pub proof fn lemma_named_name(v: State)
        ensures
            Self::named(v.name()) == Some(v),
    {
        reveal_strlit("Not started");
        reveal_strlit("Running");
        reveal_strlit("Paused");
        assert("Not started"@.len() == 11);
        assert("Running"@.len() == 7);
        assert("Paused"@.len() == 6);
    }
}

impl Model for State {
    open spec fn encoded(v: State) -> JsonV {
        JsonV::Str(v.name())
    }

    open spec fn decoded(j: JsonV) -> Option<State> {
        match j {
            JsonV::Str(s) => Self::named(s),
            _ => None,
        }
    }

    open spec fn faithful(v: State) -> bool {
        true
    }

    fn to_json(&self) -> (j: Json) {
        Json::Str(self.as_str().to_owned())
    }

    fn from_json(j: &Json) -> (r: Option<State>) {
        match j {
            Json::Str(s) => Self::from_name(s.as_str()),
            _ => None,
        }
    }

    proof fn round_trip(v: State) {
        Self::lemma_named_name(v);
    }
}

} // verus!
