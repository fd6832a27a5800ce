use crate::codec::{
    begin, group_codec, is_object, object, opt_field, read_opt_field, with_opt, write_opt_field,
    Model,
};
use crate::json::{Json, JsonV};
use crate::models::token_bucket::TokenBucket;
use vstd::prelude::*;

verus! {

/// Defines an IO rate limiter with independent bytes/s and ops/s limits. Limits
/// are defined by configuring each of the _bandwidth_ and _ops_ token buckets.
/// This field is optional for virtio-block config and should be omitted for
/// vhost-user-block configuration.
#[derive(Clone, Debug, Default, PartialEq)]
pub struct RateLimiter {
    pub bandwidth: Option<Box<TokenBucket>>,
    pub ops: Option<Box<TokenBucket>>,
}

/// The mathematical value of a [`RateLimiter`].
pub struct RateLimiterView {
    pub bandwidth: Option<TokenBucket>,
    pub ops: Option<TokenBucket>,
}

impl DeepView for RateLimiter {
    type V = RateLimiterView;

    open spec fn deep_view(&self) -> RateLimiterView {
        RateLimiterView {
            bandwidth: self.bandwidth.deep_view(),
            ops: self.ops.deep_view(),
        }
    }
}

impl Model for RateLimiter {
    open spec fn encoded(v: RateLimiterView) -> JsonV {
        let m = Seq::empty();
        let m = with_opt::<Box<TokenBucket>>(m, "bandwidth"@, v.bandwidth);
        let m = with_opt::<Box<TokenBucket>>(m, "ops"@, v.ops);
        JsonV::Object(m)
    }

    open spec fn decoded(j: JsonV) -> Option<RateLimiterView> {
        let bandwidth = opt_field::<Box<TokenBucket>>(j, "bandwidth"@);
        let ops = opt_field::<Box<TokenBucket>>(j, "ops"@);
        if j is Object && bandwidth is Some && ops is Some {
            Some(
                RateLimiterView {
                    bandwidth: bandwidth.unwrap(),
                    ops: ops.unwrap(),
                },
            )
        } else {
            None
        }
    }

    open spec fn faithful(v: RateLimiterView) -> bool {
        true
    }

    fn to_json(&self) -> (j: Json) {
        let mut m = begin();
        write_opt_field(&mut m, "bandwidth", &self.bandwidth);
        write_opt_field(&mut m, "ops", &self.ops);
        object(m)
    }

    fn from_json(j: &Json) -> (r: Option<Self>) {
        if !is_object(j) {
            return None;
        }
        let bandwidth = read_opt_field::<Box<TokenBucket>>(j, "bandwidth")?;
        let ops = read_opt_field::<Box<TokenBucket>>(j, "ops")?;
        Some(RateLimiter { bandwidth, ops })
    }

    proof fn round_trip(v: RateLimiterView) {
        broadcast use group_codec;

        reveal_strlit("bandwidth");
        reveal_strlit("ops");
        assert("bandwidth"@.len() == 9);
        assert("ops"@.len() == 3);
    }
}

} // verus!
