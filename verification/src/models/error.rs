use crate::codec::{
    begin, group_codec, is_object, object, opt_field, read_opt_field, with_opt, write_opt_field,
    Model,
};
use crate::json::{Json, JsonV};
use vstd::prelude::*;

verus! {

/// The record in which the server describes a fault.
#[derive(Clone, Debug, Default, PartialEq)]
pub struct Error {
    /// A description of the error condition
    pub fault_message: Option<String>,
}

/// The mathematical value of a [`Error`].
pub struct ErrorView {
    pub fault_message: Option<Seq<char>>,
}

impl DeepView for Error {
    type V = ErrorView;

    open spec fn deep_view(&self) -> ErrorView {
        ErrorView {
            fault_message: self.fault_message.deep_view(),
        }
    }
}

impl Model for Error {
    open spec fn encoded(v: ErrorView) -> JsonV {
        let m = Seq::empty();
        let m = with_opt::<String>(m, "fault_message"@, v.fault_message);
        JsonV::Object(m)
    }

    open spec fn decoded(j: JsonV) -> Option<ErrorView> {
        let fault_message = opt_field::<String>(j, "fault_message"@);
        if j is Object && fault_message is Some {
            Some(
                ErrorView {
                    fault_message: fault_message.unwrap(),
                },
            )
        } else {
            None
        }
    }

    open spec fn faithful(v: ErrorView) -> bool {
        true
    }

    fn to_json(&self) -> (j: Json) {
        let mut m = begin();
        write_opt_field(&mut m, "fault_message", &self.fault_message);
        object(m)
    }

    fn from_json(j: &Json) -> (r: Option<Self>) {
        if !is_object(j) {
            return None;
        }
        let fault_message = read_opt_field::<String>(j, "fault_message")?;
        Some(Error { fault_message })
    }

    proof fn round_trip(v: ErrorView) {
        broadcast use group_codec;

        reveal_strlit("fault_message");
        assert("fault_message"@.len() == 13);
    }
}

} // verus!
