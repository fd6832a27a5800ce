use crate::codec::{
    begin, field, group_codec, is_object, object, opt_field, read_field, read_opt_field, with,
    with_opt, write_field, write_opt_field, Model,
};
use crate::json::{Json, JsonV};
use vstd::prelude::*;

verus! {

/// Describes the balloon device statistics.
#[derive(Clone, Copy, Debug, Default, PartialEq)]
pub struct BalloonStats {
    /// Target number of pages the device aims to hold.
    pub target_pages: i32,
    /// Actual number of pages the device is holding.
    pub actual_pages: i32,
    /// Target amount of memory (in MiB) the device aims to hold.
    pub target_mib: i32,
    /// Actual amount of memory (in MiB) the device is holding.
    pub actual_mib: i32,
    /// The amount of memory that has been swapped in (in bytes).
    pub swap_in: Option<i64>,
    /// The amount of memory that has been swapped out to disk (in bytes).
    pub swap_out: Option<i64>,
    /// The number of major page faults that have occurred.
    pub major_faults: Option<i64>,
    /// The number of minor page faults that have occurred.
    pub minor_faults: Option<i64>,
    /// The amount of memory not being used for any purpose (in bytes).
    pub free_memory: Option<i64>,
    /// The total amount of memory available (in bytes).
    pub total_memory: Option<i64>,
    /// An estimate of how much memory is available (in bytes) for starting new
    /// applications, without pushing the system to swap.
    pub available_memory: Option<i64>,
    /// The amount of memory, in bytes, that can be quickly reclaimed without
    /// additional I/O. Typically these pages are used for caching files from
    /// disk.
    pub disk_caches: Option<i64>,
    /// The number of successful hugetlb page allocations in the guest.
    pub hugetlb_allocations: Option<i64>,
    /// The number of failed hugetlb page allocations in the guest.
    pub hugetlb_failures: Option<i64>,
}

impl DeepView for BalloonStats {
    type V = BalloonStats;

    open spec fn deep_view(&self) -> BalloonStats {
        *self
    }
}

impl BalloonStats {
    pub fn new(target_pages: i32, actual_pages: i32, target_mib: i32, actual_mib: i32) -> (r: Self)
        ensures
            r == (BalloonStats {
                target_pages,
                actual_pages,
                target_mib,
                actual_mib,
                swap_in: None,
                swap_out: None,
                major_faults: None,
                minor_faults: None,
                free_memory: None,
                total_memory: None,
                available_memory: None,
                disk_caches: None,
                hugetlb_allocations: None,
                hugetlb_failures: None,
            }),
    {
        Self {
            target_pages,
            actual_pages,
            target_mib,
            actual_mib,
            swap_in: None,
            swap_out: None,
            major_faults: None,
            minor_faults: None,
            free_memory: None,
            total_memory: None,
            available_memory: None,
            disk_caches: None,
            hugetlb_allocations: None,
            hugetlb_failures: None,
        }
    }
}

impl Model for BalloonStats {
    open spec fn encoded(v: BalloonStats) -> JsonV {
        let m = Seq::empty();
        let m = with::<i32>(m, "target_pages"@, v.target_pages);
        let m = with::<i32>(m, "actual_pages"@, v.actual_pages);
        let m = with::<i32>(m, "target_mib"@, v.target_mib);
        let m = with::<i32>(m, "actual_mib"@, v.actual_mib);
        let m = with_opt::<i64>(m, "swap_in"@, v.swap_in);
        let m = with_opt::<i64>(m, "swap_out"@, v.swap_out);
        let m = with_opt::<i64>(m, "major_faults"@, v.major_faults);
        let m = with_opt::<i64>(m, "minor_faults"@, v.minor_faults);
        let m = with_opt::<i64>(m, "free_memory"@, v.free_memory);
        let m = with_opt::<i64>(m, "total_memory"@, v.total_memory);
        let m = with_opt::<i64>(m, "available_memory"@, v.available_memory);
        let m = with_opt::<i64>(m, "disk_caches"@, v.disk_caches);
        let m = with_opt::<i64>(m, "hugetlb_allocations"@, v.hugetlb_allocations);
        let m = with_opt::<i64>(m, "hugetlb_failures"@, v.hugetlb_failures);
        JsonV::Object(m)
    }

    open spec fn decoded(j: JsonV) -> Option<BalloonStats> {
        let target_pages = field::<i32>(j, "target_pages"@);
        let actual_pages = field::<i32>(j, "actual_pages"@);
        let target_mib = field::<i32>(j, "target_mib"@);
        let actual_mib = field::<i32>(j, "actual_mib"@);
        let swap_in = opt_field::<i64>(j, "swap_in"@);
        let swap_out = opt_field::<i64>(j, "swap_out"@);
        let major_faults = opt_field::<i64>(j, "major_faults"@);
        let minor_faults = opt_field::<i64>(j, "minor_faults"@);
        let free_memory = opt_field::<i64>(j, "free_memory"@);
        let total_memory = opt_field::<i64>(j, "total_memory"@);
        let available_memory = opt_field::<i64>(j, "available_memory"@);
        let disk_caches = opt_field::<i64>(j, "disk_caches"@);
        let hugetlb_allocations = opt_field::<i64>(j, "hugetlb_allocations"@);
        let hugetlb_failures = opt_field::<i64>(j, "hugetlb_failures"@);
        if j is Object
            && target_pages is Some
            && actual_pages is Some
            && target_mib is Some
            && actual_mib is Some
            && swap_in is Some
            && swap_out is Some
            && major_faults is Some
            && minor_faults is Some
            && free_memory is Some
            && total_memory is Some
            && available_memory is Some
            && disk_caches is Some
            && hugetlb_allocations is Some
            && hugetlb_failures is Some {
            Some(
                BalloonStats {
                    target_pages: target_pages.unwrap(),
                    actual_pages: actual_pages.unwrap(),
                    target_mib: target_mib.unwrap(),
                    actual_mib: actual_mib.unwrap(),
                    swap_in: swap_in.unwrap(),
                    swap_out: swap_out.unwrap(),
                    major_faults: major_faults.unwrap(),
                    minor_faults: minor_faults.unwrap(),
                    free_memory: free_memory.unwrap(),
                    total_memory: total_memory.unwrap(),
                    available_memory: available_memory.unwrap(),
                    disk_caches: disk_caches.unwrap(),
                    hugetlb_allocations: hugetlb_allocations.unwrap(),
                    hugetlb_failures: hugetlb_failures.unwrap(),
                },
            )
        } else {
            None
        }
    }

    open spec fn faithful(v: BalloonStats) -> bool {
        true
    }

    fn to_json(&self) -> (j: Json) {
        let mut m = begin();
        write_field(&mut m, "target_pages", &self.target_pages);
        write_field(&mut m, "actual_pages", &self.actual_pages);
        write_field(&mut m, "target_mib", &self.target_mib);
        write_field(&mut m, "actual_mib", &self.actual_mib);
        write_opt_field(&mut m, "swap_in", &self.swap_in);
        write_opt_field(&mut m, "swap_out", &self.swap_out);
        write_opt_field(&mut m, "major_faults", &self.major_faults);
        write_opt_field(&mut m, "minor_faults", &self.minor_faults);
        write_opt_field(&mut m, "free_memory", &self.free_memory);
        write_opt_field(&mut m, "total_memory", &self.total_memory);
        write_opt_field(&mut m, "available_memory", &self.available_memory);
        write_opt_field(&mut m, "disk_caches", &self.disk_caches);
        write_opt_field(&mut m, "hugetlb_allocations", &self.hugetlb_allocations);
        write_opt_field(&mut m, "hugetlb_failures", &self.hugetlb_failures);
        object(m)
    }

    fn from_json(j: &Json) -> (r: Option<Self>) {
        if !is_object(j) {
            return None;
        }
        let target_pages = read_field::<i32>(j, "target_pages")?;
        let actual_pages = read_field::<i32>(j, "actual_pages")?;
        let target_mib = read_field::<i32>(j, "target_mib")?;
        let actual_mib = read_field::<i32>(j, "actual_mib")?;
        let swap_in = read_opt_field::<i64>(j, "swap_in")?;
        let swap_out = read_opt_field::<i64>(j, "swap_out")?;
        let major_faults = read_opt_field::<i64>(j, "major_faults")?;
        let minor_faults = read_opt_field::<i64>(j, "minor_faults")?;
        let free_memory = read_opt_field::<i64>(j, "free_memory")?;
        let total_memory = read_opt_field::<i64>(j, "total_memory")?;
        let available_memory = read_opt_field::<i64>(j, "available_memory")?;
        let disk_caches = read_opt_field::<i64>(j, "disk_caches")?;
        let hugetlb_allocations = read_opt_field::<i64>(j, "hugetlb_allocations")?;
        let hugetlb_failures = read_opt_field::<i64>(j, "hugetlb_failures")?;
        Some(
            BalloonStats {
                target_pages,
                actual_pages,
                target_mib,
                actual_mib,
                swap_in,
                swap_out,
                major_faults,
                minor_faults,
                free_memory,
                total_memory,
                available_memory,
                disk_caches,
                hugetlb_allocations,
                hugetlb_failures,
            },
        )
    }

    proof fn round_trip(v: BalloonStats) {
        broadcast use group_codec;

        reveal_strlit("target_pages");
        reveal_strlit("actual_pages");
        reveal_strlit("target_mib");
        reveal_strlit("actual_mib");
        reveal_strlit("swap_in");
        reveal_strlit("swap_out");
        reveal_strlit("major_faults");
        reveal_strlit("minor_faults");
        reveal_strlit("free_memory");
        reveal_strlit("total_memory");
        reveal_strlit("available_memory");
        reveal_strlit("disk_caches");
        reveal_strlit("hugetlb_allocations");
        reveal_strlit("hugetlb_failures");
        assert("target_pages"@.len() == 12);
        assert("actual_pages"@.len() == 12);
        assert("target_mib"@.len() == 10);
        assert("actual_mib"@.len() == 10);
        assert("swap_in"@.len() == 7);
        assert("swap_out"@.len() == 8);
        assert("major_faults"@.len() == 12);
        assert("minor_faults"@.len() == 12);
        assert("free_memory"@.len() == 11);
        assert("total_memory"@.len() == 12);
        assert("available_memory"@.len() == 16);
        assert("disk_caches"@.len() == 11);
        assert("hugetlb_allocations"@.len() == 19);
        assert("hugetlb_failures"@.len() == 16);
        assert("target_pages"@[0] != "actual_pages"@[0]);
        assert("target_pages"@[0] != "major_faults"@[0]);
        assert("target_pages"@[0] != "minor_faults"@[0]);
        assert("target_pages"@[1] != "total_memory"@[1]);
        assert("actual_pages"@[0] != "major_faults"@[0]);
        assert("actual_pages"@[0] != "minor_faults"@[0]);
        assert("actual_pages"@[0] != "total_memory"@[0]);
        assert("target_mib"@[0] != "actual_mib"@[0]);
        assert("major_faults"@[1] != "minor_faults"@[1]);
        assert("major_faults"@[0] != "total_memory"@[0]);
        assert("minor_faults"@[0] != "total_memory"@[0]);
        assert("free_memory"@[0] != "disk_caches"@[0]);
        assert("available_memory"@[0] != "hugetlb_failures"@[0]);
    }
}

} // verus!
