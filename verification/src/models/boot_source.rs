use crate::codec::{
    begin, field, group_codec, is_object, object, opt_field, read_field, read_opt_field, with,
    with_opt, write_field, write_opt_field, Model,
};
use crate::json::{Json, JsonV};
use vstd::prelude::*;

verus! {

/// Boot source descriptor.
#[derive(Clone, Debug, Default, PartialEq)]
pub struct BootSource {
    /// Kernel boot arguments
    pub boot_args: Option<String>,
    /// Host level path to the initrd image used to boot the guest
    pub initrd_path: Option<String>,
    /// Host level path to the kernel image used to boot the guest
    pub kernel_image_path: String,
}

/// The mathematical value of a [`BootSource`].
pub struct BootSourceView {
    pub boot_args: Option<Seq<char>>,
    pub initrd_path: Option<Seq<char>>,
    pub kernel_image_path: Seq<char>,
}

impl DeepView for BootSource {
    type V = BootSourceView;

    open spec fn deep_view(&self) -> BootSourceView {
        BootSourceView {
            boot_args: self.boot_args.deep_view(),
            initrd_path: self.initrd_path.deep_view(),
            kernel_image_path: self.kernel_image_path.deep_view(),
        }
    }
}

impl BootSource {
    pub fn new(kernel_image_path: String) -> (r: Self)
        ensures
            r == (BootSource { boot_args: None, initrd_path: None, kernel_image_path }),
    {
        Self { boot_args: None, initrd_path: None, kernel_image_path }
    }
}

impl Model for BootSource {
    open spec fn encoded(v: BootSourceView) -> JsonV {
        let m = Seq::empty();
        let m = with_opt::<String>(m, "boot_args"@, v.boot_args);
        let m = with_opt::<String>(m, "initrd_path"@, v.initrd_path);
        let m = with::<String>(m, "kernel_image_path"@, v.kernel_image_path);
        JsonV::Object(m)
    }

    open spec fn decoded(j: JsonV) -> Option<BootSourceView> {
        let boot_args = opt_field::<String>(j, "boot_args"@);
        let initrd_path = opt_field::<String>(j, "initrd_path"@);
        let kernel_image_path = field::<String>(j, "kernel_image_path"@);
        if j is Object && boot_args is Some && initrd_path is Some && kernel_image_path is Some {
            Some(
                BootSourceView {
                    boot_args: boot_args.unwrap(),
                    initrd_path: initrd_path.unwrap(),
                    kernel_image_path: kernel_image_path.unwrap(),
                },
            )
        } else {
            None
        }
    }

    open spec fn faithful(v: BootSourceView) -> bool {
        true
    }

    fn to_json(&self) -> (j: Json) {
        let mut m = begin();
        write_opt_field(&mut m, "boot_args", &self.boot_args);
        write_opt_field(&mut m, "initrd_path", &self.initrd_path);
        write_field(&mut m, "kernel_image_path", &self.kernel_image_path);
        object(m)
    }

    fn from_json(j: &Json) -> (r: Option<Self>) {
        if !is_object(j) {
            return None;
        }
        let boot_args = read_opt_field::<String>(j, "boot_args")?;
        let initrd_path = read_opt_field::<String>(j, "initrd_path")?;
        let kernel_image_path = read_field::<String>(j, "kernel_image_path")?;
        Some(BootSource { boot_args, initrd_path, kernel_image_path })
    }

    proof fn round_trip(v: BootSourceView) {
        broadcast use group_codec;

        reveal_strlit("boot_args");
        reveal_strlit("initrd_path");
        reveal_strlit("kernel_image_path");
        assert("boot_args"@.len() == 9);
        assert("initrd_path"@.len() == 11);
        assert("kernel_image_path"@.len() == 17);
    }
}

} // verus!
