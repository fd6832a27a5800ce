use crate::codec::{
    begin, field, group_codec, is_object, object, opt_field, read_field, read_opt_field, with,
    with_opt, write_field, write_opt_field, Model,
};
use crate::json::{Json, JsonV};
use vstd::prelude::*;

verus! {

/// Defines a token bucket with a maximum capacity (size), an initial burst size
/// (one_time_burst) and an interval for refilling purposes (refill_time). The
/// refill-rate is derived from size and refill_time, and it is the constant rate
/// at which the tokens replenish. The refill process only starts happening after
/// the initial burst budget is consumed. Consumption from the token bucket is
/// unbounded in speed which allows for bursts bound in size by the amount of
/// tokens available. Once the token bucket is empty, consumption speed is bound
/// by the refill_rate.
#[derive(Clone, Copy, Debug, Default, PartialEq)]
pub struct TokenBucket {
    /// The initial size of a token bucket.
    pub one_time_burst: Option<i64>,
    /// The amount of milliseconds it takes for the bucket to refill.
    pub refill_time: i64,
    /// The total number of tokens this bucket can hold.
    pub size: i64,
}

impl DeepView for TokenBucket {
    type V = TokenBucket;

    open spec fn deep_view(&self) -> TokenBucket {
        *self
    }
}

impl TokenBucket {
    pub fn new(refill_time: i64, size: i64) -> (r: Self)
        ensures
            r == (TokenBucket { one_time_burst: None, refill_time, size }),
    {
        Self { one_time_burst: None, refill_time, size }
    }
}

impl Model for TokenBucket {
    open spec fn encoded(v: TokenBucket) -> JsonV {
        let m = Seq::empty();
        let m = with_opt::<i64>(m, "one_time_burst"@, v.one_time_burst);
        let m = with::<i64>(m, "refill_time"@, v.refill_time);
        let m = with::<i64>(m, "size"@, v.size);
        JsonV::Object(m)
    }

    open spec fn decoded(j: JsonV) -> Option<TokenBucket> {
        let one_time_burst = opt_field::<i64>(j, "one_time_burst"@);
        let refill_time = field::<i64>(j, "refill_time"@);
        let size = field::<i64>(j, "size"@);
        if j is Object && one_time_burst is Some && refill_time is Some && size is Some {
            Some(
                TokenBucket {
                    one_time_burst: one_time_burst.unwrap(),
                    refill_time: refill_time.unwrap(),
                    size: size.unwrap(),
                },
            )
        } else {
            None
        }
    }

    open spec fn faithful(v: TokenBucket) -> bool {
        true
    }

    fn to_json(&self) -> (j: Json) {
        let mut m = begin();
        write_opt_field(&mut m, "one_time_burst", &self.one_time_burst);
        write_field(&mut m, "refill_time", &self.refill_time);
        write_field(&mut m, "size", &self.size);
        object(m)
    }

    fn from_json(j: &Json) -> (r: Option<Self>) {
        if !is_object(j) {
            return None;
        }
        let one_time_burst = read_opt_field::<i64>(j, "one_time_burst")?;
        let refill_time = read_field::<i64>(j, "refill_time")?;
        let size = read_field::<i64>(j, "size")?;
        Some(TokenBucket { one_time_burst, refill_time, size })
    }

    proof fn round_trip(v: TokenBucket) {
        broadcast use group_codec;

        reveal_strlit("one_time_burst");
        reveal_strlit("refill_time");
        reveal_strlit("size");
        assert("one_time_burst"@.len() == 14);
        assert("refill_time"@.len() == 11);
        assert("size"@.len() == 4);
    }
}

} // verus!
