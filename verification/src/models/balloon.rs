use crate::codec::{
    begin, field, group_codec, is_object, object, opt_field, read_field, read_opt_field, with,
    with_opt, write_field, write_opt_field, Model,
};
use crate::json::{Json, JsonV};
use vstd::prelude::*;

verus! {

/// Balloon device descriptor.
#[derive(Clone, Copy, Debug, Default, PartialEq)]
pub struct Balloon {
    /// Target balloon size in MiB.
    pub amount_mib: i32,
    /// Whether the balloon should deflate when the guest has memory pressure.
    pub deflate_on_oom: bool,
    /// Interval in seconds between refreshing statistics. A non-zero value will
    /// enable the statistics. Defaults to 0.
    pub stats_polling_interval_s: Option<i32>,
}

impl DeepView for Balloon {
    type V = Balloon;

    open spec fn deep_view(&self) -> Balloon {
        *self
    }
}

impl Balloon {
    pub fn new(amount_mib: i32, deflate_on_oom: bool) -> (r: Self)
        ensures
            r == (Balloon { amount_mib, deflate_on_oom, stats_polling_interval_s: None }),
    {
        Self { amount_mib, deflate_on_oom, stats_polling_interval_s: None }
    }
}

impl Model for Balloon {
    open spec fn encoded(v: Balloon) -> JsonV {
        let m = Seq::empty();
        let m = with::<i32>(m, "amount_mib"@, v.amount_mib);
        let m = with::<bool>(m, "deflate_on_oom"@, v.deflate_on_oom);
        let m = with_opt::<i32>(m, "stats_polling_interval_s"@, v.stats_polling_interval_s);
        JsonV::Object(m)
    }

    open spec fn decoded(j: JsonV) -> Option<Balloon> {
        let amount_mib = field::<i32>(j, "amount_mib"@);
        let deflate_on_oom = field::<bool>(j, "deflate_on_oom"@);
        let stats_polling_interval_s = opt_field::<i32>(j, "stats_polling_interval_s"@);
        if j is Object
            && amount_mib is Some
            && deflate_on_oom is Some
            && stats_polling_interval_s is Some {
            Some(
                Balloon {
                    amount_mib: amount_mib.unwrap(),
                    deflate_on_oom: deflate_on_oom.unwrap(),
                    stats_polling_interval_s: stats_polling_interval_s.unwrap(),
                },
            )
        } else {
            None
        }
    }

    open spec fn faithful(v: Balloon) -> bool {
        true
    }

    fn to_json(&self) -> (j: Json) {
        let mut m = begin();
        write_field(&mut m, "amount_mib", &self.amount_mib);
        write_field(&mut m, "deflate_on_oom", &self.deflate_on_oom);
        write_opt_field(&mut m, "stats_polling_interval_s", &self.stats_polling_interval_s);
        object(m)
    }

    fn from_json(j: &Json) -> (r: Option<Self>) {
        if !is_object(j) {
            return None;
        }
        let amount_mib = read_field::<i32>(j, "amount_mib")?;
        let deflate_on_oom = read_field::<bool>(j, "deflate_on_oom")?;
        let stats_polling_interval_s = read_opt_field::<i32>(j, "stats_polling_interval_s")?;
        Some(Balloon { amount_mib, deflate_on_oom, stats_polling_interval_s })
    }

    proof fn round_trip(v: Balloon) {
        broadcast use group_codec;

        reveal_strlit("amount_mib");
        reveal_strlit("deflate_on_oom");
        reveal_strlit("stats_polling_interval_s");
        assert("amount_mib"@.len() == 10);
        assert("deflate_on_oom"@.len() == 14);
        assert("stats_polling_interval_s"@.len() == 24);
    }
}

} // verus!
