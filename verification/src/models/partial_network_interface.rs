use crate::codec::{
    begin, field, group_codec, is_object, object, opt_field, read_field, read_opt_field, with,
    with_opt, write_field, write_opt_field, Model,
};
use crate::json::{Json, JsonV};
use crate::models::rate_limiter::{RateLimiter, RateLimiterView};
use vstd::prelude::*;

verus! {

/// Defines a partial network interface structure, used to update the rate
/// limiters for that interface, after microvm start.
#[derive(Clone, Debug, Default, PartialEq)]
pub struct PartialNetworkInterface {
    pub iface_id: String,
    pub rx_rate_limiter: Option<Box<RateLimiter>>,
    pub tx_rate_limiter: Option<Box<RateLimiter>>,
}

/// The mathematical value of a [`PartialNetworkInterface`].
pub struct PartialNetworkInterfaceView {
    pub iface_id: Seq<char>,
    pub rx_rate_limiter: Option<RateLimiterView>,
    pub tx_rate_limiter: Option<RateLimiterView>,
}

impl DeepView for PartialNetworkInterface {
    type V = PartialNetworkInterfaceView;

    open spec fn deep_view(&self) -> PartialNetworkInterfaceView {
        PartialNetworkInterfaceView {
            iface_id: self.iface_id.deep_view(),
            rx_rate_limiter: self.rx_rate_limiter.deep_view(),
            tx_rate_limiter: self.tx_rate_limiter.deep_view(),
        }
    }
}

impl PartialNetworkInterface {
    pub fn new(iface_id: String) -> (r: Self)
        ensures
            r == (PartialNetworkInterface {
                iface_id,
                rx_rate_limiter: None,
                tx_rate_limiter: None,
            }),
    {
        Self { iface_id, rx_rate_limiter: None, tx_rate_limiter: None }
    }
}

impl Model for PartialNetworkInterface {
    open spec fn encoded(v: PartialNetworkInterfaceView) -> JsonV {
        let m = Seq::empty();
        let m = with::<String>(m, "iface_id"@, v.iface_id);
        let m = with_opt::<Box<RateLimiter>>(m, "rx_rate_limiter"@, v.rx_rate_limiter);
        let m = with_opt::<Box<RateLimiter>>(m, "tx_rate_limiter"@, v.tx_rate_limiter);
        JsonV::Object(m)
    }

    open spec fn decoded(j: JsonV) -> Option<PartialNetworkInterfaceView> {
        let iface_id = field::<String>(j, "iface_id"@);
        let rx_rate_limiter = opt_field::<Box<RateLimiter>>(j, "rx_rate_limiter"@);
        let tx_rate_limiter = opt_field::<Box<RateLimiter>>(j, "tx_rate_limiter"@);
        if j is Object && iface_id is Some && rx_rate_limiter is Some && tx_rate_limiter is Some {
            Some(
                PartialNetworkInterfaceView {
                    iface_id: iface_id.unwrap(),
                    rx_rate_limiter: rx_rate_limiter.unwrap(),
                    tx_rate_limiter: tx_rate_limiter.unwrap(),
                },
            )
        } else {
            None
        }
    }

    open spec fn faithful(v: PartialNetworkInterfaceView) -> bool {
        true
    }

    fn to_json(&self) -> (j: Json) {
        let mut m = begin();
        write_field(&mut m, "iface_id", &self.iface_id);
        write_opt_field(&mut m, "rx_rate_limiter", &self.rx_rate_limiter);
        write_opt_field(&mut m, "tx_rate_limiter", &self.tx_rate_limiter);
        object(m)
    }

    fn from_json(j: &Json) -> (r: Option<Self>) {
        if !is_object(j) {
            return None;
        }
        let iface_id = read_field::<String>(j, "iface_id")?;
        let rx_rate_limiter = read_opt_field::<Box<RateLimiter>>(j, "rx_rate_limiter")?;
        let tx_rate_limiter = read_opt_field::<Box<RateLimiter>>(j, "tx_rate_limiter")?;
        Some(PartialNetworkInterface { iface_id, rx_rate_limiter, tx_rate_limiter })
    }

    proof fn round_trip(v: PartialNetworkInterfaceView) {
        broadcast use group_codec;

        reveal_strlit("iface_id");
        reveal_strlit("rx_rate_limiter");
        reveal_strlit("tx_rate_limiter");
        assert("iface_id"@.len() == 8);
        assert("rx_rate_limiter"@.len() == 15);
        assert("tx_rate_limiter"@.len() == 15);
        assert("rx_rate_limiter"@[0] != "tx_rate_limiter"@[0]);
    }
}

} // verus!
