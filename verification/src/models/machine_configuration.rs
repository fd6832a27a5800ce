use crate::codec::{
    begin, field, group_codec, is_object, object, opt_field, read_field, read_opt_field, with,
    with_opt, write_field, write_opt_field, Model,
};
use crate::json::{str_eq, Json, JsonV};
use crate::models::cpu_template::CpuTemplate;
use vstd::prelude::*;

verus! {

/// Describes the number of vCPUs, memory size, SMT capabilities, huge page
/// configuration and the CPU template.
#[derive(Clone, Copy, Debug, Default, PartialEq)]
pub struct MachineConfiguration {
    pub cpu_template: Option<CpuTemplate>,
    /// Flag for enabling/disabling simultaneous multithreading. Can be enabled
    /// only on x86.
    pub smt: Option<bool>,
    /// Memory size of VM
    pub mem_size_mib: i32,
    /// Enable dirty page tracking. If this is enabled, then incremental guest
    /// memory snapshots can be created. These belong to diff snapshots, which
    /// contain, besides the microVM state, only the memory dirtied since a
    /// previous snapshot. Full snapshots each contain a full copy of the guest
    /// memory.
    pub track_dirty_pages: Option<bool>,
    /// Number of vCPUs (either 1 or an even number)
    pub vcpu_count: i32,
    /// Which huge pages configuration (if any) should be used to back guest
    /// memory.
    pub huge_pages: Option<HugePages>,
}

impl DeepView for MachineConfiguration {
    type V = MachineConfiguration;

    open spec fn deep_view(&self) -> MachineConfiguration {
        *self
    }
}

impl MachineConfiguration {
    pub fn new(mem_size_mib: i32, vcpu_count: i32) -> (r: Self)
        ensures
            r == (MachineConfiguration {
                cpu_template: None,
                smt: None,
                mem_size_mib,
                track_dirty_pages: None,
                vcpu_count,
                huge_pages: None,
            }),
    {
        Self {
            cpu_template: None,
            smt: None,
            mem_size_mib,
            track_dirty_pages: None,
            vcpu_count,
            huge_pages: None,
        }
    }
}

impl Model for MachineConfiguration {
    open spec fn encoded(v: MachineConfiguration) -> JsonV {
        let m = Seq::empty();
        let m = with_opt::<CpuTemplate>(m, "cpu_template"@, v.cpu_template);
        let m = with_opt::<bool>(m, "smt"@, v.smt);
        let m = with::<i32>(m, "mem_size_mib"@, v.mem_size_mib);
        let m = with_opt::<bool>(m, "track_dirty_pages"@, v.track_dirty_pages);
        let m = with::<i32>(m, "vcpu_count"@, v.vcpu_count);
        let m = with_opt::<HugePages>(m, "huge_pages"@, v.huge_pages);
        JsonV::Object(m)
    }

    open spec fn decoded(j: JsonV) -> Option<MachineConfiguration> {
        let cpu_template = opt_field::<CpuTemplate>(j, "cpu_template"@);
        let smt = opt_field::<bool>(j, "smt"@);
        let mem_size_mib = field::<i32>(j, "mem_size_mib"@);
        let track_dirty_pages = opt_field::<bool>(j, "track_dirty_pages"@);
        let vcpu_count = field::<i32>(j, "vcpu_count"@);
        let huge_pages = opt_field::<HugePages>(j, "huge_pages"@);
        if j is Object
            && cpu_template is Some
            && smt is Some
            && mem_size_mib is Some
            && track_dirty_pages is Some
            && vcpu_count is Some
            && huge_pages is Some {
            Some(
                MachineConfiguration {
                    cpu_template: cpu_template.unwrap(),
                    smt: smt.unwrap(),
                    mem_size_mib: mem_size_mib.unwrap(),
                    track_dirty_pages: track_dirty_pages.unwrap(),
                    vcpu_count: vcpu_count.unwrap(),
                    huge_pages: huge_pages.unwrap(),
                },
            )
        } else {
            None
        }
    }

    open spec fn faithful(v: MachineConfiguration) -> bool {
        true
    }

    fn to_json(&self) -> (j: Json) {
        let mut m = begin();
        write_opt_field(&mut m, "cpu_template", &self.cpu_template);
        write_opt_field(&mut m, "smt", &self.smt);
        write_field(&mut m, "mem_size_mib", &self.mem_size_mib);
        write_opt_field(&mut m, "track_dirty_pages", &self.track_dirty_pages);
        write_field(&mut m, "vcpu_count", &self.vcpu_count);
        write_opt_field(&mut m, "huge_pages", &self.huge_pages);
        object(m)
    }

    fn from_json(j: &Json) -> (r: Option<Self>) {
        if !is_object(j) {
            return None;
        }
        let cpu_template = read_opt_field::<CpuTemplate>(j, "cpu_template")?;
        let smt = read_opt_field::<bool>(j, "smt")?;
        let mem_size_mib = read_field::<i32>(j, "mem_size_mib")?;
        let track_dirty_pages = read_opt_field::<bool>(j, "track_dirty_pages")?;
        let vcpu_count = read_field::<i32>(j, "vcpu_count")?;
        let huge_pages = read_opt_field::<HugePages>(j, "huge_pages")?;
        Some(
            MachineConfiguration {
                cpu_template,
                smt,
                mem_size_mib,
                track_dirty_pages,
                vcpu_count,
                huge_pages,
            },
        )
    }

    proof fn round_trip(v: MachineConfiguration) {
        broadcast use group_codec;

        reveal_strlit("cpu_template");
        reveal_strlit("smt");
        reveal_strlit("mem_size_mib");
        reveal_strlit("track_dirty_pages");
        reveal_strlit("vcpu_count");
        reveal_strlit("huge_pages");
        assert("cpu_template"@.len() == 12);
        assert("smt"@.len() == 3);
        assert("mem_size_mib"@.len() == 12);
        assert("track_dirty_pages"@.len() == 17);
        assert("vcpu_count"@.len() == 10);
        assert("huge_pages"@.len() == 10);
        assert("cpu_template"@[0] != "mem_size_mib"@[0]);
        assert("vcpu_count"@[0] != "huge_pages"@[0]);
    }
}

/// Which huge pages configuration (if any) should be used to back guest memory.
#[derive(Clone, Copy, Debug, Default, Eq, PartialEq, Ord, PartialOrd, Hash)]
pub enum HugePages {
    #[default]
    Unset,
    TwoM,
}

impl DeepView for HugePages {
    type V = HugePages;

    open spec fn deep_view(&self) -> HugePages {
        *self
    }
}

impl HugePages {
    /// The name under which a variant travels.
    pub open spec fn name(self) -> Seq<char> {
        match self {
            HugePages::Unset => "None"@,
            HugePages::TwoM => "2M"@,
        }
    }

    /// The variant that travels under a name.
    pub open spec fn named(s: Seq<char>) -> Option<HugePages> {
        if s == "None"@ {
            Some(HugePages::Unset)
        } else if s == "2M"@ {
            Some(HugePages::TwoM)
        } else {
            None
        }
    }

    /// The name of the variant.
    pub fn as_str(&self) -> (r: &'static str)
        ensures
            r@ == self.name(),
    {
        match self {
            HugePages::Unset => "None",
            HugePages::TwoM => "2M",
        }
    }

    /// The variant that a name stands for, if it stands for one.
    pub fn from_name(s: &str) -> (r: Option<HugePages>)
        ensures
            r == Self::named(s@),
    {
        if str_eq(s, "None") {
            Some(HugePages::Unset)
        } else if str_eq(s, "2M") {
            Some(HugePages::TwoM)
        } else {
            None
        }
    }

    /// Different variants travel under different names.
    pub proof fn lemma_named_name(v: HugePages)
        ensures
            Self::named(v.name()) == Some(v),
    {
        reveal_strlit("None");
        reveal_strlit("2M");
        assert("None"@.len() == 4);
        assert("2M"@.len() == 2);
    }
}

impl Model for HugePages {
    open spec fn encoded(v: HugePages) -> JsonV {
        JsonV::Str(v.name())
    }

    open spec fn decoded(j: JsonV) -> Option<HugePages> {
        match j {
            JsonV::Str(s) => Self::named(s),
            _ => None,
        }
    }

    open spec fn faithful(v: HugePages) -> bool {
        true
    }

    fn to_json(&self) -> (j: Json) {
        Json::Str(self.as_str().to_owned())
    }

    fn from_json(j: &Json) -> (r: Option<HugePages>) {
        match j {
            Json::Str(s) => Self::from_name(s.as_str()),
            _ => None,
        }
    }

    proof fn round_trip(v: HugePages) {
        Self::lemma_named_name(v);
    }
}

} // verus!
