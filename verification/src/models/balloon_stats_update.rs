use crate::codec::{
    begin, field, group_codec, is_object, object, read_field, with, write_field, Model,
};
use crate::json::{Json, JsonV};
use vstd::prelude::*;

verus! {

/// Update the statistics polling interval, with the first statistics update
/// scheduled immediately. Statistics cannot be turned on/off after boot.
#[derive(Clone, Copy, Debug, Default, PartialEq)]
pub struct BalloonStatsUpdate {
    /// Interval in seconds between refreshing statistics.
    pub stats_polling_interval_s: i32,
}

impl DeepView for BalloonStatsUpdate {
    type V = BalloonStatsUpdate;

    open spec fn deep_view(&self) -> BalloonStatsUpdate {
        *self
    }
}

impl BalloonStatsUpdate {
    pub fn new(stats_polling_interval_s: i32) -> (r: Self)
        ensures
            r == (BalloonStatsUpdate { stats_polling_interval_s }),
    {
        Self { stats_polling_interval_s }
    }
}

impl Model for BalloonStatsUpdate {
    open spec fn encoded(v: BalloonStatsUpdate) -> JsonV {
        let m = Seq::empty();
        let m = with::<i32>(m, "stats_polling_interval_s"@, v.stats_polling_interval_s);
        JsonV::Object(m)
    }

    open spec fn decoded(j: JsonV) -> Option<BalloonStatsUpdate> {
        let stats_polling_interval_s = field::<i32>(j, "stats_polling_interval_s"@);
        if j is Object && stats_polling_interval_s is Some {
            Some(
                BalloonStatsUpdate {
                    stats_polling_interval_s: stats_polling_interval_s.unwrap(),
                },
            )
        } else {
            None
        }
    }

    open spec fn faithful(v: BalloonStatsUpdate) -> bool {
        true
    }

    fn to_json(&self) -> (j: Json) {
        let mut m = begin();
        write_field(&mut m, "stats_polling_interval_s", &self.stats_polling_interval_s);
        object(m)
    }

    fn from_json(j: &Json) -> (r: Option<Self>) {
        if !is_object(j) {
            return None;
        }
        let stats_polling_interval_s = read_field::<i32>(j, "stats_polling_interval_s")?;
        Some(BalloonStatsUpdate { stats_polling_interval_s })
    }

    proof fn round_trip(v: BalloonStatsUpdate) {
        broadcast use group_codec;

        reveal_strlit("stats_polling_interval_s");
        assert("stats_polling_interval_s"@.len() == 24);
    }
}

} // verus!
