use crate::codec::{
    begin, group_codec, is_object, object, opt_field, read_opt_field, with_opt, write_opt_field,
    Model,
};
use crate::json::{Json, JsonV};
use crate::models::rate_limiter::{RateLimiter, RateLimiterView};
use vstd::prelude::*;

verus! {

/// Defines an entropy device.
#[derive(Clone, Debug, Default, PartialEq)]
pub struct EntropyDevice {
    pub rate_limiter: Option<Box<RateLimiter>>,
}

/// The mathematical value of a [`EntropyDevice`].
pub struct EntropyDeviceView {
    pub rate_limiter: Option<RateLimiterView>,
}

impl DeepView for EntropyDevice {
    type V = EntropyDeviceView;

    open spec fn deep_view(&self) -> EntropyDeviceView {
        EntropyDeviceView {
            rate_limiter: self.rate_limiter.deep_view(),
        }
    }
}

impl Model for EntropyDevice {
    open spec fn encoded(v: EntropyDeviceView) -> JsonV {
        let m = Seq::empty();
        let m = with_opt::<Box<RateLimiter>>(m, "rate_limiter"@, v.rate_limiter);
        JsonV::Object(m)
    }

    open spec fn decoded(j: JsonV) -> Option<EntropyDeviceView> {
        let rate_limiter = opt_field::<Box<RateLimiter>>(j, "rate_limiter"@);
        if j is Object && rate_limiter is Some {
            Some(
                EntropyDeviceView {
                    rate_limiter: rate_limiter.unwrap(),
                },
            )
        } else {
            None
        }
    }

    open spec fn faithful(v: EntropyDeviceView) -> bool {
        true
    }

    fn to_json(&self) -> (j: Json) {
        let mut m = begin();
        write_opt_field(&mut m, "rate_limiter", &self.rate_limiter);
        object(m)
    }

    fn from_json(j: &Json) -> (r: Option<Self>) {
        if !is_object(j) {
            return None;
        }
        let rate_limiter = read_opt_field::<Box<RateLimiter>>(j, "rate_limiter")?;
        Some(EntropyDevice { rate_limiter })
    }

    proof fn round_trip(v: EntropyDeviceView) {
        broadcast use group_codec;

        reveal_strlit("rate_limiter");
        assert("rate_limiter"@.len() == 12);
    }
}

} // verus!
