use crate::codec::{
    begin, field, group_codec, is_object, object, opt_field, read_field, read_opt_field, with,
    with_opt, write_field, write_opt_field, Model,
};
use crate::json::{Json, JsonV};
use crate::models::rate_limiter::{RateLimiter, RateLimiterView};
use vstd::prelude::*;

verus! {

/// The properties of a drive that can be changed after boot.
#[derive(Clone, Debug, Default, PartialEq)]
pub struct PartialDrive {
    pub drive_id: String,
    /// Host level path for the guest drive. This field is optional for
    /// virtio-block config and should be omitted for vhost-user-block
    /// configuration.
    pub path_on_host: Option<String>,
    pub rate_limiter: Option<Box<RateLimiter>>,
}

/// The mathematical value of a [`PartialDrive`].
pub struct PartialDriveView {
    pub drive_id: Seq<char>,
    pub path_on_host: Option<Seq<char>>,
    pub rate_limiter: Option<RateLimiterView>,
}

impl DeepView for PartialDrive {
    type V = PartialDriveView;

    open spec fn deep_view(&self) -> PartialDriveView {
        PartialDriveView {
            drive_id: self.drive_id.deep_view(),
            path_on_host: self.path_on_host.deep_view(),
            rate_limiter: self.rate_limiter.deep_view(),
        }
    }
}

impl PartialDrive {
    pub fn new(drive_id: String) -> (r: Self)
        ensures
            r == (PartialDrive { drive_id, path_on_host: None, rate_limiter: None }),
    {
        Self { drive_id, path_on_host: None, rate_limiter: None }
    }
}

impl Model for PartialDrive {
    open spec fn encoded(v: PartialDriveView) -> JsonV {
        let m = Seq::empty();
        let m = with::<String>(m, "drive_id"@, v.drive_id);
        let m = with_opt::<String>(m, "path_on_host"@, v.path_on_host);
        let m = with_opt::<Box<RateLimiter>>(m, "rate_limiter"@, v.rate_limiter);
        JsonV::Object(m)
    }

    open spec fn decoded(j: JsonV) -> Option<PartialDriveView> {
        let drive_id = field::<String>(j, "drive_id"@);
        let path_on_host = opt_field::<String>(j, "path_on_host"@);
        let rate_limiter = opt_field::<Box<RateLimiter>>(j, "rate_limiter"@);
        if j is Object && drive_id is Some && path_on_host is Some && rate_limiter is Some {
            Some(
                PartialDriveView {
                    drive_id: drive_id.unwrap(),
                    path_on_host: path_on_host.unwrap(),
                    rate_limiter: rate_limiter.unwrap(),
                },
            )
        } else {
            None
        }
    }

    open spec fn faithful(v: PartialDriveView) -> bool {
        true
    }

    fn to_json(&self) -> (j: Json) {
        let mut m = begin();
        write_field(&mut m, "drive_id", &self.drive_id);
        write_opt_field(&mut m, "path_on_host", &self.path_on_host);
        write_opt_field(&mut m, "rate_limiter", &self.rate_limiter);
        object(m)
    }

    fn from_json(j: &Json) -> (r: Option<Self>) {
        if !is_object(j) {
            return None;
        }
        let drive_id = read_field::<String>(j, "drive_id")?;
        let path_on_host = read_opt_field::<String>(j, "path_on_host")?;
        let rate_limiter = read_opt_field::<Box<RateLimiter>>(j, "rate_limiter")?;
        Some(PartialDrive { drive_id, path_on_host, rate_limiter })
    }

    proof fn round_trip(v: PartialDriveView) {
        broadcast use group_codec;

        reveal_strlit("drive_id");
        reveal_strlit("path_on_host");
        reveal_strlit("rate_limiter");
        assert("drive_id"@.len() == 8);
        assert("path_on_host"@.len() == 12);
        assert("rate_limiter"@.len() == 12);
        assert("path_on_host"@[0] != "rate_limiter"@[0]);
    }
}

} // verus!
