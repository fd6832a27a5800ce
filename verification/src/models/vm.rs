use crate::codec::{
    begin, field, group_codec, is_object, object, read_field, with, write_field, Model,
};
use crate::json::{str_eq, Json, JsonV};
use vstd::prelude::*;

verus! {

/// Defines the microVM running state. It is especially useful in the snapshotting
/// context.
#[derive(Clone, Copy, Debug, Default, PartialEq)]
pub struct Vm {
    pub state: State,
}

impl DeepView for Vm {
    type V = Vm;

    open spec fn deep_view(&self) -> Vm {
        *self
    }
}

impl Vm {
    pub fn new(state: State) -> (r: Self)
        ensures
            r == (Vm { state }),
    {
        Self { state }
    }
}

impl Model for Vm {
    open spec fn encoded(v: Vm) -> JsonV {
        let m = Seq::empty();
        let m = with::<State>(m, "state"@, v.state);
        JsonV::Object(m)
    }

    open spec fn decoded(j: JsonV) -> Option<Vm> {
        let state = field::<State>(j, "state"@);
        if j is Object && state is Some {
            Some(
                Vm {
                    state: state.unwrap(),
                },
            )
        } else {
            None
        }
    }

    open spec fn faithful(v: Vm) -> bool {
        true
    }

    fn to_json(&self) -> (j: Json) {
        let mut m = begin();
        write_field(&mut m, "state", &self.state);
        object(m)
    }

    fn from_json(j: &Json) -> (r: Option<Self>) {
        if !is_object(j) {
            return None;
        }
        let state = read_field::<State>(j, "state")?;
        Some(Vm { state })
    }

    proof fn round_trip(v: Vm) {
        broadcast use group_codec;

        reveal_strlit("state");
        assert("state"@.len() == 5);
    }
}

/// The running state that a microVM is asked to take.
#[derive(Clone, Copy, Debug, Default, Eq, PartialEq, Ord, PartialOrd, Hash)]
pub enum State {
    #[default]
    Paused,
    Resumed,
}

impl DeepView for State {
    type V = State;

    open spec fn deep_view(&self) -> State {
        *self
    }
}

impl State {
    /// The name under which a variant travels.
    pub open spec fn name(self) -> Seq<char> {
        match self {
            State::Paused => "Paused"@,
            State::Resumed => "Resumed"@,
        }
    }

    /// The variant that travels under a name.
    pub open spec fn named(s: Seq<char>) -> Option<State> {
        if s == "Paused"@ {
            Some(State::Paused)
        } else if s == "Resumed"@ {
            Some(State::Resumed)
        } else {
            None
        }
    }

    /// The name of the variant.
    pub fn as_str(&self) -> (r: &'static str)
        ensures
            r@ == self.name(),
    {
        match self {
            State::Paused => "Paused",
            State::Resumed => "Resumed",
        }
    }

    /// The variant that a name stands for, if it stands for one.
    pub fn from_name(s: &str) -> (r: Option<State>)
        ensures
            r == Self::named(s@),
    {
        if str_eq(s, "Paused") {
            Some(State::Paused)
        } else if str_eq(s, "Resumed") {
            Some(State::Resumed)
        } else {
            None
        }
    }

    /// Different variants travel under different names.
    pub proof fn lemma_named_name(v: State)
        ensures
            Self::named(v.name()) == Some(v),
    {
        reveal_strlit("Paused");
        reveal_strlit("Resumed");
        assert("Paused"@.len() == 6);
        assert("Resumed"@.len() == 7);
    }
}

impl Model for State {
    open spec fn encoded(v: State) -> JsonV {
        JsonV::Str(v.name())
    }

    open spec fn decoded(j: JsonV) -> Option<State> {
        match j {
            JsonV::Str(s) => Self::named(s),
            _ => None,
        }
    }

    open spec fn faithful(v: State) -> bool {
        true
    }

    fn to_json(&self) -> (j: Json) {
        Json::Str(self.as_str().to_owned())
    }

    fn from_json(j: &Json) -> (r: Option<State>) {
        match j {
            Json::Str(s) => Self::from_name(s.as_str()),
            _ => None,
        }
    }

    proof fn round_trip(v: State) {
        Self::lemma_named_name(v);
    }
}

} // verus!
