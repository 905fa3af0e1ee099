//! The choices that the configuration form offers.
use vstd::prelude::*;

use crate::packages::str_views;

verus! {

pub open spec fn locale_names() -> Seq<Seq<char>> {
    seq!["en_US.UTF-8"@, "pt_BR.UTF-8"@]
}

pub open spec fn timezone_names() -> Seq<Seq<char>> {
    seq!["America/Sao_Paulo"@]
}

pub open spec fn keymap_names() -> Seq<Seq<char>> {
    seq!["br-abnt2"@]
}

pub open spec fn dm_names() -> Seq<Seq<char>> {
    seq!["gdm"@, "sddm"@, "lightdm"@]
}

pub open spec fn gpu_names() -> Seq<Seq<char>> {
    seq!["nvidia"@, "amd"@, "intel"@]
}

/// The locales offered.
pub fn locales() -> (r: &'static [&'static str])
    ensures
        str_views(r@) == locale_names(),
{
    let a: &'static [&'static str; 2] = &["en_US.UTF-8", "pt_BR.UTF-8"];
    let r = a.as_slice();
    assert(str_views(r@) =~= locale_names());
    r
}

/// The time zones offered.
pub fn timezones() -> (r: &'static [&'static str])
    ensures
        str_views(r@) == timezone_names(),
{
    let a: &'static [&'static str; 1] = &["America/Sao_Paulo"];
    let r = a.as_slice();
    assert(str_views(r@) =~= timezone_names());
    r
}

/// The console keymaps offered.
pub fn keymaps() -> (r: &'static [&'static str])
    ensures
        str_views(r@) == keymap_names(),
{
    let a: &'static [&'static str; 1] = &["br-abnt2"];
    let r = a.as_slice();
    assert(str_views(r@) =~= keymap_names());
    r
}

/// The display managers offered; each brings its desktop environment.
pub fn dms() -> (r: &'static [&'static str])
    ensures
        str_views(r@) == dm_names(),
{
    let a: &'static [&'static str; 3] = &["gdm", "sddm", "lightdm"];
    let r = a.as_slice();
    assert(str_views(r@) =~= dm_names());
    r
}

/// The GPU vendors offered.
pub fn gpus() -> (r: &'static [&'static str])
    ensures
        str_views(r@) == gpu_names(),
{
    let a: &'static [&'static str; 3] = &["nvidia", "amd", "intel"];
    let r = a.as_slice();
    assert(str_views(r@) =~= gpu_names());
    r
}

} // verus!
