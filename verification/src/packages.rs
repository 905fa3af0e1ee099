//! Disk partition names and the packages chosen from the configuration.
use vstd::prelude::*;
use vstd::string::*;

use crate::text::{decimal, has_substring, contains_str, push_decimal, same_text};

verus! {

/// The device name of partition `num` of `disk`: NVMe and MMC devices put
/// a `p` between the disk and the number.
pub open spec fn partition_name(disk: Seq<char>, num: nat) -> Seq<char> {
    if has_substring(disk, "nvme"@) || has_substring(disk, "mmcblk"@) {
        disk + "p"@ + decimal(num)
    } else {
        disk + decimal(num)
    }
}

/// The driver packages installed for a GPU vendor.
pub open spec fn gpu_package_list(gpu: Seq<char>) -> Seq<Seq<char>> {
    if gpu == "nvidia"@ {
        seq!["nvidia"@, "nvidia-utils"@, "nvidia-settings"@]
    } else if gpu == "amd"@ {
        seq!["mesa"@, "vulkan-radeon"@, "libva-mesa-driver"@]
    } else if gpu == "intel"@ {
        seq!["mesa"@, "intel-media-driver"@, "vulkan-intel"@]
    } else {
        Seq::empty()
    }
}

/// The desktop environment package that goes with a display manager, or
/// the empty text when there is none.
pub open spec fn desktop_package(dm: Seq<char>) -> Seq<char> {
    if dm == "gdm"@ {
        "gnome"@
    } else if dm == "sddm"@ {
        "plasma-meta"@
    } else if dm == "lightdm"@ {
        "xfce4"@
    } else {
        ""@
    }
}

/// The views of a sequence of string slices.
pub open spec fn str_views(v: Seq<&str>) -> Seq<Seq<char>> {
    v.map_values(|s: &str| s@)
}

/// The device name of partition `num` of `disk`.
pub fn partition(disk: &str, num: u8) -> (r: String)
    ensures
        r@ == partition_name(disk@, num as nat),
{
    let mut r = String::from_str(disk);
    if contains_str(disk, "nvme") || contains_str(disk, "mmcblk") {
        r.append("p");
    }
    push_decimal(&mut r, num as u32);
    r
}

/// The driver packages for `gpu` (`nvidia`, `amd` or `intel`); none for any
/// other value.
pub fn gpu_packages(gpu: &str) -> (r: &'static [&'static str])
    ensures
        str_views(r@) == gpu_package_list(gpu@),
{
    let r: &'static [&'static str] = if same_text(gpu, "nvidia") {
        let a: &'static [&'static str; 3] = &["nvidia", "nvidia-utils", "nvidia-settings"];
        a.as_slice()
    } else if same_text(gpu, "amd") {
        let a: &'static [&'static str; 3] = &["mesa", "vulkan-radeon", "libva-mesa-driver"];
        a.as_slice()
    } else if same_text(gpu, "intel") {
        let a: &'static [&'static str; 3] = &["mesa", "intel-media-driver", "vulkan-intel"];
        a.as_slice()
    } else {
        let a: &'static [&'static str; 0] = &[];
        a.as_slice()
    };
    assert(str_views(r@) =~= gpu_package_list(gpu@));
    r
}

/// The desktop environment package for a display manager (`gdm`, `sddm`,
/// `lightdm`); the empty text for any other.
pub fn de_package(dm: &str) -> (r: &'static str)
    ensures
        r@ == desktop_package(dm@),
{
    if same_text(dm, "gdm") {
        "gnome"
    } else if same_text(dm, "sddm") {
        "plasma-meta"
    } else if same_text(dm, "lightdm") {
        "xfce4"
    } else {
        ""
    }
}

} // verus!
