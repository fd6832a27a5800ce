use crate::codec::{
    begin, field, group_codec, is_object, object, read_field, with, write_field, Model,
};
use crate::json::{Json, JsonV};
use vstd::prelude::*;

verus! {

/// Balloon device descriptor.
#[derive(Clone, Copy, Debug, Default, PartialEq)]
pub struct BalloonUpdate {
    /// Target balloon size in MiB.
    pub amount_mib: i32,
}

impl DeepView for BalloonUpdate {
    type V = BalloonUpdate;

    open spec fn deep_view(&self) -> BalloonUpdate {
        *self
    }
}

impl BalloonUpdate {
    pub fn new(amount_mib: i32) -> (r: Self)
        ensures
            r == (BalloonUpdate { amount_mib }),
    {
        Self { amount_mib }
    }
}

impl Model for BalloonUpdate {
    open spec fn encoded(v: BalloonUpdate) -> JsonV {
        let m = Seq::empty();
        let m = with::<i32>(m, "amount_mib"@, v.amount_mib);
        JsonV::Object(m)
    }

    open spec fn decoded(j: JsonV) -> Option<BalloonUpdate> {
        let amount_mib = field::<i32>(j, "amount_mib"@);
        if j is Object && amount_mib is Some {
            Some(
                BalloonUpdate {
                    amount_mib: amount_mib.unwrap(),
                },
            )
        } else {
            None
        }
    }

    open spec fn faithful(v: BalloonUpdate) -> bool {
        true
    }

    fn to_json(&self) -> (j: Json) {
        let mut m = begin();
        write_field(&mut m, "amount_mib", &self.amount_mib);
        object(m)
    }

    fn from_json(j: &Json) -> (r: Option<Self>) {
        if !is_object(j) {
            return None;
        }
        let amount_mib = read_field::<i32>(j, "amount_mib")?;
        Some(BalloonUpdate { amount_mib })
    }

    proof fn round_trip(v: BalloonUpdate) {
        broadcast use group_codec;

        reveal_strlit("amount_mib");
        assert("amount_mib"@.len() == 10);
    }
}

} // verus!
