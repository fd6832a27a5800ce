use crate::codec::{
    begin, field, group_codec, is_object, object, opt_field, read_field, read_opt_field, with,
    with_opt, write_field, write_opt_field, Model,
};
use crate::json::{Json, JsonV};
use crate::models::rate_limiter::{RateLimiter, RateLimiterView};
use vstd::prelude::*;

verus! {

/// Defines a network interface.
#[derive(Clone, Debug, Default, PartialEq)]
pub struct NetworkInterface {
    pub guest_mac: Option<String>,
    /// Host level path for the guest network interface
    pub host_dev_name: String,
    pub iface_id: String,
    pub rx_rate_limiter: Option<Box<RateLimiter>>,
    pub tx_rate_limiter: Option<Box<RateLimiter>>,
}

/// The mathematical value of a [`NetworkInterface`].
pub struct NetworkInterfaceView {
    pub guest_mac: Option<Seq<char>>,
    pub host_dev_name: Seq<char>,
    pub iface_id: Seq<char>,
    pub rx_rate_limiter: Option<RateLimiterView>,
    pub tx_rate_limiter: Option<RateLimiterView>,
}

impl DeepView for NetworkInterface {
    type V = NetworkInterfaceView;

    open spec fn deep_view(&self) -> NetworkInterfaceView {
        NetworkInterfaceView {
            guest_mac: self.guest_mac.deep_view(),
            host_dev_name: self.host_dev_name.deep_view(),
            iface_id: self.iface_id.deep_view(),
            rx_rate_limiter: self.rx_rate_limiter.deep_view(),
            tx_rate_limiter: self.tx_rate_limiter.deep_view(),
        }
    }
}

impl NetworkInterface {
    pub fn new(host_dev_name: String, iface_id: String) -> (r: Self)
        ensures
            r == (NetworkInterface {
                guest_mac: None,
                host_dev_name,
                iface_id,
                rx_rate_limiter: None,
                tx_rate_limiter: None,
            }),
    {
        Self {
            guest_mac: None,
            host_dev_name,
            iface_id,
            rx_rate_limiter: None,
            tx_rate_limiter: None,
        }
    }
}

impl Model for NetworkInterface {
    open spec fn encoded(v: NetworkInterfaceView) -> JsonV {
        let m = Seq::empty();
        let m = with_opt::<String>(m, "guest_mac"@, v.guest_mac);
        let m = with::<String>(m, "host_dev_name"@, v.host_dev_name);
        let m = with::<String>(m, "iface_id"@, v.iface_id);
        let m = with_opt::<Box<RateLimiter>>(m, "rx_rate_limiter"@, v.rx_rate_limiter);
        let m = with_opt::<Box<RateLimiter>>(m, "tx_rate_limiter"@, v.tx_rate_limiter);
        JsonV::Object(m)
    }

    open spec fn decoded(j: JsonV) -> Option<NetworkInterfaceView> {
        let guest_mac = opt_field::<String>(j, "guest_mac"@);
        let host_dev_name = field::<String>(j, "host_dev_name"@);
        let iface_id = field::<String>(j, "iface_id"@);
        let rx_rate_limiter = opt_field::<Box<RateLimiter>>(j, "rx_rate_limiter"@);
        let tx_rate_limiter = opt_field::<Box<RateLimiter>>(j, "tx_rate_limiter"@);
        if j is Object
            && guest_mac is Some
            && host_dev_name is Some
            && iface_id is Some
            && rx_rate_limiter is Some
            && tx_rate_limiter is Some {
            Some(
                NetworkInterfaceView {
                    guest_mac: guest_mac.unwrap(),
                    host_dev_name: host_dev_name.unwrap(),
                    iface_id: iface_id.unwrap(),
                    rx_rate_limiter: rx_rate_limiter.unwrap(),
                    tx_rate_limiter: tx_rate_limiter.unwrap(),
                },
            )
        } else {
            None
        }
    }

    open spec fn faithful(v: NetworkInterfaceView) -> bool {
        true
    }

    fn to_json(&self) -> (j: Json) {
        let mut m = begin();
        write_opt_field(&mut m, "guest_mac", &self.guest_mac);
        write_field(&mut m, "host_dev_name", &self.host_dev_name);
        write_field(&mut m, "iface_id", &self.iface_id);
        write_opt_field(&mut m, "rx_rate_limiter", &self.rx_rate_limiter);
        write_opt_field(&mut m, "tx_rate_limiter", &self.tx_rate_limiter);
        object(m)
    }

    fn from_json(j: &Json) -> (r: Option<Self>) {
        if !is_object(j) {
            return None;
        }
        let guest_mac = read_opt_field::<String>(j, "guest_mac")?;
        let host_dev_name = read_field::<String>(j, "host_dev_name")?;
        let iface_id = read_field::<String>(j, "iface_id")?;
        let rx_rate_limiter = read_opt_field::<Box<RateLimiter>>(j, "rx_rate_limiter")?;
        let tx_rate_limiter = read_opt_field::<Box<RateLimiter>>(j, "tx_rate_limiter")?;
        Some(
            NetworkInterface {
                guest_mac,
                host_dev_name,
                iface_id,
                rx_rate_limiter,
                tx_rate_limiter,
            },
        )
    }

    proof fn round_trip(v: NetworkInterfaceView) {
        broadcast use group_codec;

        reveal_strlit("guest_mac");
        reveal_strlit("host_dev_name");
        reveal_strlit("iface_id");
        reveal_strlit("rx_rate_limiter");
        reveal_strlit("tx_rate_limiter");
        assert("guest_mac"@.len() == 9);
        assert("host_dev_name"@.len() == 13);
        assert("iface_id"@.len() == 8);
        assert("rx_rate_limiter"@.len() == 15);
        assert("tx_rate_limiter"@.len() == 15);
        assert("rx_rate_limiter"@[0] != "tx_rate_limiter"@[0]);
    }
}

} // verus!
