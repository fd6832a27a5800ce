use crate::codec::{
    begin, group_codec, is_object, object, opt_faithful, opt_field, read_opt_field, with_opt,
    write_opt_field, Model,
};
use crate::json::{Json, JsonV};
use vstd::prelude::*;

verus! {

/// The CPU configuration template defines a set of bit maps as modifiers of flags
/// accessed by register to be disabled/enabled for the microvm.
#[derive(Clone, Debug, Default, PartialEq)]
pub struct CpuConfig {
    /// A collection of CPUIDs to be modified. (x86_64)
    pub cpuid_modifiers: Option<Json>,
    /// A collection of model specific registers to be modified. (x86_64)
    pub msr_modifiers: Option<Json>,
    /// A collection of registers to be modified. (aarch64)
    pub reg_modifiers: Option<Json>,
    /// A collection of vcpu features to be modified. (aarch64)
    pub vcpu_features: Option<Json>,
    /// A collection of kvm capabilities to be modified. (aarch64)
    pub kvm_capabilities: Option<Json>,
}

/// The mathematical value of a [`CpuConfig`].
pub struct CpuConfigView {
    pub cpuid_modifiers: Option<JsonV>,
    pub msr_modifiers: Option<JsonV>,
    pub reg_modifiers: Option<JsonV>,
    pub vcpu_features: Option<JsonV>,
    pub kvm_capabilities: Option<JsonV>,
}

impl DeepView for CpuConfig {
    type V = CpuConfigView;

    open spec fn deep_view(&self) -> CpuConfigView {
        CpuConfigView {
            cpuid_modifiers: self.cpuid_modifiers.deep_view(),
            msr_modifiers: self.msr_modifiers.deep_view(),
            reg_modifiers: self.reg_modifiers.deep_view(),
            vcpu_features: self.vcpu_features.deep_view(),
            kvm_capabilities: self.kvm_capabilities.deep_view(),
        }
    }
}

impl Model for CpuConfig {
    open spec fn encoded(v: CpuConfigView) -> JsonV {
        let m = Seq::empty();
        let m = with_opt::<Json>(m, "cpuid_modifiers"@, v.cpuid_modifiers);
        let m = with_opt::<Json>(m, "msr_modifiers"@, v.msr_modifiers);
        let m = with_opt::<Json>(m, "reg_modifiers"@, v.reg_modifiers);
        let m = with_opt::<Json>(m, "vcpu_features"@, v.vcpu_features);
        let m = with_opt::<Json>(m, "kvm_capabilities"@, v.kvm_capabilities);
        JsonV::Object(m)
    }

    open spec fn decoded(j: JsonV) -> Option<CpuConfigView> {
        let cpuid_modifiers = opt_field::<Json>(j, "cpuid_modifiers"@);
        let msr_modifiers = opt_field::<Json>(j, "msr_modifiers"@);
        let reg_modifiers = opt_field::<Json>(j, "reg_modifiers"@);
        let vcpu_features = opt_field::<Json>(j, "vcpu_features"@);
        let kvm_capabilities = opt_field::<Json>(j, "kvm_capabilities"@);
        if j is Object
            && cpuid_modifiers is Some
            && msr_modifiers is Some
            && reg_modifiers is Some
            && vcpu_features is Some
            && kvm_capabilities is Some {
            Some(
                CpuConfigView {
                    cpuid_modifiers: cpuid_modifiers.unwrap(),
                    msr_modifiers: msr_modifiers.unwrap(),
                    reg_modifiers: reg_modifiers.unwrap(),
                    vcpu_features: vcpu_features.unwrap(),
                    kvm_capabilities: kvm_capabilities.unwrap(),
                },
            )
        } else {
            None
        }
    }

    open spec fn faithful(v: CpuConfigView) -> bool {
        &&& opt_faithful::<Json>(v.cpuid_modifiers)
        &&& opt_faithful::<Json>(v.msr_modifiers)
        &&& opt_faithful::<Json>(v.reg_modifiers)
        &&& opt_faithful::<Json>(v.vcpu_features)
        &&& opt_faithful::<Json>(v.kvm_capabilities)
    }

    fn to_json(&self) -> (j: Json) {
        let mut m = begin();
        write_opt_field(&mut m, "cpuid_modifiers", &self.cpuid_modifiers);
        write_opt_field(&mut m, "msr_modifiers", &self.msr_modifiers);
        write_opt_field(&mut m, "reg_modifiers", &self.reg_modifiers);
        write_opt_field(&mut m, "vcpu_features", &self.vcpu_features);
        write_opt_field(&mut m, "kvm_capabilities", &self.kvm_capabilities);
        object(m)
    }

    fn from_json(j: &Json) -> (r: Option<Self>) {
        if !is_object(j) {
            return None;
        }
        let cpuid_modifiers = read_opt_field::<Json>(j, "cpuid_modifiers")?;
        let msr_modifiers = read_opt_field::<Json>(j, "msr_modifiers")?;
        let reg_modifiers = read_opt_field::<Json>(j, "reg_modifiers")?;
        let vcpu_features = read_opt_field::<Json>(j, "vcpu_features")?;
        let kvm_capabilities = read_opt_field::<Json>(j, "kvm_capabilities")?;
        Some(
            CpuConfig {
                cpuid_modifiers,
                msr_modifiers,
                reg_modifiers,
                vcpu_features,
                kvm_capabilities,
            },
        )
    }

    proof fn round_trip(v: CpuConfigView) {
        broadcast use group_codec;

        reveal_strlit("cpuid_modifiers");
        reveal_strlit("msr_modifiers");
        reveal_strlit("reg_modifiers");
        reveal_strlit("vcpu_features");
        reveal_strlit("kvm_capabilities");
        assert("cpuid_modifiers"@.len() == 15);
        assert("msr_modifiers"@.len() == 13);
        assert("reg_modifiers"@.len() == 13);
        assert("vcpu_features"@.len() == 13);
        assert("kvm_capabilities"@.len() == 16);
        assert("msr_modifiers"@[0] != "reg_modifiers"@[0]);
        assert("msr_modifiers"@[0] != "vcpu_features"@[0]);
        assert("reg_modifiers"@[0] != "vcpu_features"@[0]);
    }
}

} // verus!
