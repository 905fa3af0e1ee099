//! Properties of the installer that hold across its functions.
use vstd::prelude::*;

use crate::config::{
    config_check, desktop_config_check, is_safe_value, lemma_safe_check_ok, InstallConfigView,
};
use crate::constants::{dm_names, gpu_names, keymap_names, locale_names, timezone_names};
use crate::install::{
    base_phase, chroot_phase, disk_phase, finish_phase, front_end_check, install_plan,
    swap_fstab_phase, swap_phase, ActionView, Frontend,
};
use crate::packages::partition_name;
use crate::scan::{collect_networks, scanned_networks};
use crate::state::{
    accepts_key, on_key, ready, username_char, wired_option, AppField, AppStateView, Key, OutcomeView,
    Step,
};
use crate::text::digit_value;
use crate::text::{decimal, first_word, has_prefix, has_substring, split_lines, trim};

verus! {

// ---------------------------------------------------------------------
// Checking before installing
// ---------------------------------------------------------------------

/// Whatever configuration passes the check, every value written into the
/// shell commands and the chroot script is non-empty and free of shell
/// metacharacters, the disk is a `/dev/` path and the swap file is at most
/// 64 GB.
pub proof fn lemma_checked_values_are_safe(c: InstallConfigView, f: Frontend)
    requires
        front_end_check(c, f) is Ok,
    ensures
        has_prefix(c.disk, "/dev/"@),
        c.swap_size <= 64,
        is_safe_value(c.hostname),
        is_safe_value(c.username),
        is_safe_value(c.locale),
        is_safe_value(c.timezone),
        is_safe_value(c.keymap),
        is_safe_value(c.dm),
{
    lemma_safe_check_ok(c.hostname, "hostname"@);
    lemma_safe_check_ok(c.username, "username"@);
    lemma_safe_check_ok(c.locale, "locale"@);
    lemma_safe_check_ok(c.timezone, "timezone"@);
    lemma_safe_check_ok(c.keymap, "keymap"@);
    lemma_safe_check_ok(c.dm, "display manager"@);
}

/// The desktop front end accepts only what the terminal one accepts.
pub proof fn lemma_desktop_check_is_stricter(c: InstallConfigView)
    ensures
        desktop_config_check(c) is Ok ==> config_check(c) is Ok,
{
}

// ---------------------------------------------------------------------
// Partitions
// ---------------------------------------------------------------------

/// The boot and root partitions of a disk are two different devices, and
/// each name begins with the disk's name.
pub proof fn lemma_partitions_distinct(disk: Seq<char>)
    ensures
        partition_name(disk, 1) != partition_name(disk, 2),
        has_prefix(partition_name(disk, 1), disk),
        has_prefix(partition_name(disk, 2), disk),
{
    let p1 = partition_name(disk, 1);
    let p2 = partition_name(disk, 2);
    assert(decimal(1) =~= seq!['1']);
    assert(decimal(2) =~= seq!['2']);
    assert(p1.len() == p2.len());
    assert(p1[p1.len() - 1] == '1');
    assert(p2[p2.len() - 1] == '2');
    assert(p1.subrange(0, disk.len() as int) =~= disk);
    assert(p2.subrange(0, disk.len() as int) =~= disk);
}

// ---------------------------------------------------------------------
// Progress
// ---------------------------------------------------------------------

/// The percentage an action reports, if it is a progress report.
pub open spec fn percent_of(a: ActionView) -> Option<u8> {
    match a {
        ActionView::Progress { percent, .. } => Some(percent),
        _ => None,
    }
}

/// No progress report of `plan` goes below an earlier one.
pub open spec fn rising(plan: Seq<ActionView>) -> bool {
    forall|i: int, j: int|
        #![trigger percent_of(plan[i]), percent_of(plan[j])]
        0 <= i < j < plan.len() && percent_of(plan[i]) is Some && percent_of(plan[j]) is Some
            ==> percent_of(plan[i])->0 <= percent_of(plan[j])->0
}

/// Every progress report of `plan` lies between `lo` and `hi`.
pub open spec fn within(plan: Seq<ActionView>, lo: int, hi: int) -> bool {
    forall|i: int|
        #![trigger percent_of(plan[i])]
        0 <= i < plan.len() && percent_of(plan[i]) is Some ==> lo <= percent_of(plan[i])->0 <= hi
}

proof fn lemma_join_rising(a: Seq<ActionView>, b: Seq<ActionView>, lo: int, mid: int, hi: int)
    requires
        lo <= mid <= hi,
        rising(a),
        rising(b),
        within(a, lo, mid),
        within(b, mid, hi),
    ensures
        rising(a + b),
        within(a + b, lo, hi),
{
    let s = a + b;
    assert forall|i: int, j: int|
        0 <= i < j < s.len() && percent_of(s[i]) is Some && percent_of(
            s[j],
        ) is Some implies percent_of(s[i])->0 <= percent_of(s[j])->0 by {
        if j < a.len() {
            assert(s[i] == a[i] && s[j] == a[j]);
        } else if i >= a.len() {
            assert(s[i] == b[i - a.len()] && s[j] == b[j - a.len()]);
        } else {
            assert(s[i] == a[i] && s[j] == b[j - a.len()]);
            assert(percent_of(a[i]) is Some);
            assert(percent_of(b[j - a.len()]) is Some);
        }
    }
    assert forall|i: int| 0 <= i < s.len() && percent_of(s[i]) is Some implies lo <= percent_of(
        s[i],
    )->0 <= hi by {
        if i < a.len() {
            assert(s[i] == a[i]);
        } else {
            assert(s[i] == b[i - a.len()]);
        }
    }
}

proof fn lemma_disk_phase_rising(c: InstallConfigView, f: Frontend)
    ensures
        rising(disk_phase(c, f)),
        within(disk_phase(c, f), 5, 28),
{
    let d = disk_phase(c, f);
    assert(percent_of(d[0]) == Some(5u8));
    assert(percent_of(d[1]) is None);
    assert(percent_of(d[2]) == Some(10u8));
    assert(percent_of(d[3]) is None);
    assert(percent_of(d[4]) is None);
    assert(percent_of(d[5]) is None);
    assert(percent_of(d[6]) == Some(20u8));
    assert(percent_of(d[7]) is None);
    assert(percent_of(d[8]) is None);
    assert(percent_of(d[9]) == Some(28u8));
    assert(percent_of(d[10]) is None);
    assert(percent_of(d[11]) is None);
    assert(percent_of(d[12]) is None);
}

proof fn lemma_swap_phase_rising(c: InstallConfigView)
    ensures
        rising(swap_phase(c)),
        within(swap_phase(c), 28, 33),
{
    let d = swap_phase(c);
    if c.swap_size > 0 {
        assert(percent_of(d[0]) == Some(33u8));
        assert(percent_of(d[1]) is None);
        assert(percent_of(d[2]) is None);
        assert(percent_of(d[3]) is None);
    }
}

proof fn lemma_base_phase_rising(c: InstallConfigView, f: Frontend)
    ensures
        rising(base_phase(c, f)),
        within(base_phase(c, f), 33, 70),
{
    let d = base_phase(c, f);
    assert(percent_of(d[0]) == Some(38u8));
    assert(percent_of(d[1]) is None);
    assert(percent_of(d[2]) == Some(45u8));
    assert(percent_of(d[3]) is None);
    assert(percent_of(d[4]) == Some(70u8));
    assert(percent_of(d[5]) is None);
}

proof fn lemma_swap_fstab_phase_rising(c: InstallConfigView)
    ensures
        rising(swap_fstab_phase(c)),
        within(swap_fstab_phase(c), 70, 70),
{
    let d = swap_fstab_phase(c);
    if c.swap_size > 0 {
        assert(percent_of(d[0]) is None);
    }
}

proof fn lemma_chroot_phase_rising(c: InstallConfigView, f: Frontend)
    ensures
        rising(chroot_phase(c, f)),
        within(chroot_phase(c, f), 70, 80),
{
    let d = chroot_phase(c, f);
    assert(percent_of(d[0]) == Some(75u8));
    assert(percent_of(d[1]) is None);
    assert(percent_of(d[2]) is None);
    assert(percent_of(d[3]) == Some(80u8));
    assert(percent_of(d[4]) is None);
    assert(percent_of(d[5]) is None);
}

proof fn lemma_finish_phase_rising(f: Frontend)
    ensures
        rising(finish_phase(f)),
        within(finish_phase(f), 80, 100),
{
    let d = finish_phase(f);
    assert(percent_of(d[0]) == Some(100u8));
    assert(percent_of(d[1]) is None);
}

/// The progress that an installation reports never goes back, stays
/// between 5 and 100, and its last report is 100, one step before the end.
pub proof fn lemma_progress_rises(c: InstallConfigView, f: Frontend)
    ensures
        rising(install_plan(c, f)),
        within(install_plan(c, f), 5, 100),
        install_plan(c, f).len() >= 2,
        percent_of(install_plan(c, f)[install_plan(c, f).len() - 2]) == Some(100u8),
{
    lemma_disk_phase_rising(c, f);
    lemma_swap_phase_rising(c);
    lemma_base_phase_rising(c, f);
    lemma_swap_fstab_phase_rising(c);
    lemma_chroot_phase_rising(c, f);
    lemma_finish_phase_rising(f);
    let a = disk_phase(c, f);
    let b = a + swap_phase(c);
    lemma_join_rising(a, swap_phase(c), 5, 28, 33);
    let d = b + base_phase(c, f);
    lemma_join_rising(b, base_phase(c, f), 5, 33, 70);
    let e = d + swap_fstab_phase(c);
    lemma_join_rising(d, swap_fstab_phase(c), 5, 70, 70);
    let g = e + chroot_phase(c, f);
    lemma_join_rising(e, chroot_phase(c, f), 5, 70, 80);
    lemma_join_rising(g, finish_phase(f), 5, 80, 100);
    let p = install_plan(c, f);
    assert(p == g + finish_phase(f));
    assert(p[p.len() - 2] == finish_phase(f)[0]);
}

// ---------------------------------------------------------------------
// The form
// ---------------------------------------------------------------------

/// A well-formed state accepts every key, and every key leaves it
/// well-formed: the installer driven by keys alone never indexes out of
/// its lists nor overflows the swap size.
pub proof fn lemma_keys_keep_state_well_formed(s: AppStateView, key: Key)
    requires
        s.wf(),
    ensures
        accepts_key(s, key),
        on_key(s, key).0.wf(),
{
}

/// On the form, the down arrow undoes the up arrow, and the up arrow undoes
/// the down arrow.
pub proof fn lemma_up_down_restore(s: AppStateView)
    requires
        s.step == Step::Configure,
    ensures
        on_key(on_key(s, Key::Up).0, Key::Down).0 == s,
        on_key(on_key(s, Key::Down).0, Key::Up).0 == s,
        on_key(s, Key::Up).1 == OutcomeView::Stay,
        on_key(s, Key::Down).1 == OutcomeView::Stay,
{
    assert(on_key(on_key(s, Key::Up).0, Key::Down).0 =~= s);
    assert(on_key(on_key(s, Key::Down).0, Key::Up).0 =~= s);
}

/// Backspace undoes a character just typed: in the host name, in a user
/// name that accepted it, in the network password, and in the swap size
/// when the digit was taken.
pub proof fn lemma_backspace_undoes_typing(s: AppStateView, c: char)
    ensures
        (s.step == Step::Configure && s.active_field == AppField::Hostname) ==> on_key(
            on_key(s, Key::Char(c)).0,
            Key::Backspace,
        ).0 == s,
        (s.step == Step::Configure && s.active_field == AppField::Username && username_char(c))
            ==> on_key(on_key(s, Key::Char(c)).0, Key::Backspace).0 == s,
        (s.step == Step::Wifi && s.wifi_input_mode) ==> on_key(
            on_key(s, Key::Char(c)).0,
            Key::Backspace,
        ).0 == s,
        (s.step == Step::Configure && s.active_field == AppField::SwapSize && digit_value(c) is Some
            && s.swap_size * 10 + digit_value(c)->0 <= 64) ==> on_key(
            on_key(s, Key::Char(c)).0,
            Key::Backspace,
        ).0 == s,
{
    assert(s.hostname.push(c).drop_last() =~= s.hostname);
    assert(s.username.push(c).drop_last() =~= s.username);
    assert(s.wifi_password.push(c).drop_last() =~= s.wifi_password);
    if s.step == Step::Configure && s.active_field == AppField::Hostname {
        assert(on_key(on_key(s, Key::Char(c)).0, Key::Backspace).0 =~= s);
    }
    if s.step == Step::Configure && s.active_field == AppField::Username && username_char(c) {
        assert(on_key(on_key(s, Key::Char(c)).0, Key::Backspace).0 =~= s);
    }
    if s.step == Step::Wifi && s.wifi_input_mode {
        assert(on_key(on_key(s, Key::Char(c)).0, Key::Backspace).0 =~= s);
    }
    if s.step == Step::Configure && s.active_field == AppField::SwapSize && digit_value(c) is Some
        && s.swap_size * 10 + digit_value(c)->0 <= 64 {
        assert(on_key(on_key(s, Key::Char(c)).0, Key::Backspace).0 =~= s);
    }
}

/// Leaving the form for the review screen and coming back with Esc gives
/// the form back as it was.
pub proof fn lemma_review_and_back(s: AppStateView)
    requires
        s.step == Step::Configure,
        ready(s),
    ensures
        on_key(s, Key::Enter).0.step == Step::Review,
        on_key(on_key(s, Key::Enter).0, Key::Esc).0 == s,
{
    assert(on_key(on_key(s, Key::Enter).0, Key::Esc).0 =~= s);
}

// ---------------------------------------------------------------------
// Networks
// ---------------------------------------------------------------------

proof fn lemma_collect_keeps(lines: Seq<Seq<char>>, known: Seq<Seq<char>>)
    requires
        known.no_duplicates(),
        known.len() > 0,
    ensures
        collect_networks(lines, known).no_duplicates(),
        collect_networks(lines, known).len() > 0,
        collect_networks(lines, known)[0] == known[0],
    decreases lines.len(),
{
    if lines.len() > 0 {
        lemma_collect_keeps(lines.drop_last(), known);
        let acc = collect_networks(lines.drop_last(), known);
        let r = collect_networks(lines, known);
        if r != acc {
            assert forall|i: int, j: int|
                0 <= i < r.len() && 0 <= j < r.len() && i != j implies r[i] != r[j] by {
                if i < acc.len() && j < acc.len() {
                } else if i == acc.len() {
                    assert(r[i] == r.last());
                    assert(r[j] == acc[j]);
                } else {
                    assert(r[j] == r.last());
                    assert(r[i] == acc[i]);
                }
            }
        }
    }
}

/// The network list after a scan starts with going on without Wi-Fi and
/// names no network twice.
pub proof fn lemma_scanned_networks_distinct(output: Seq<char>)
    ensures
        scanned_networks(output).len() > 0,
        scanned_networks(output)[0] == wired_option(),
        scanned_networks(output).no_duplicates(),
{
    lemma_collect_keeps(split_lines(output), seq![wired_option()]);
}

// ---------------------------------------------------------------------
// Display managers
// ---------------------------------------------------------------------

/// The desktop installer accepts exactly the configurations that the
/// terminal one accepts and whose display manager is one the form offers.
pub proof fn lemma_desktop_accepts_offered_dms(c: InstallConfigView)
    ensures
        (desktop_config_check(c) is Ok) <==> (config_check(c) is Ok && dm_names().contains(c.dm)),
{
    let d = dm_names();
    assert(d[0] == "gdm"@ && d[1] == "sddm"@ && d[2] == "lightdm"@ && d.len() == 3);
    if d.contains(c.dm) {
        let i = choose|i: int| 0 <= i < d.len() && d[i] == c.dm;
        assert(i == 0 || i == 1 || i == 2);
    }
    if c.dm == "gdm"@ {
        assert(d[0] == c.dm);
    }
    if c.dm == "sddm"@ {
        assert(d[1] == c.dm);
    }
    if c.dm == "lightdm"@ {
        assert(d[2] == c.dm);
    }
}

// ---------------------------------------------------------------------
// Choices on the form
// ---------------------------------------------------------------------

/// The fields of the form that choose from a list.
pub open spec fn is_list_field(f: AppField) -> bool {
    f == AppField::Disk || f == AppField::Locale || f == AppField::Timezone || f == AppField::Keymap
        || f == AppField::Dm || f == AppField::Gpu
}

/// The position chosen in the list of a field.
pub open spec fn choice_index(s: AppStateView, f: AppField) -> int {
    match f {
        AppField::Disk => s.disk_idx as int,
        AppField::Locale => s.locale_idx as int,
        AppField::Timezone => s.timezone_idx as int,
        AppField::Keymap => s.keymap_idx as int,
        AppField::Dm => s.dm_idx as int,
        AppField::Gpu => s.gpu_idx as int,
        _ => 0,
    }
}

/// The number of options a field chooses from: the disks found, or the
/// list that the form offers for it.
pub open spec fn option_count(s: AppStateView, f: AppField) -> int {
    match f {
        AppField::Disk => s.disks.len() as int,
        AppField::Locale => locale_names().len() as int,
        AppField::Timezone => timezone_names().len() as int,
        AppField::Keymap => keymap_names().len() as int,
        AppField::Dm => dm_names().len() as int,
        AppField::Gpu => gpu_names().len() as int,
        _ => 0,
    }
}

/// On a list field of the form, the right arrow moves to the next option
/// while there is one, the left arrow to the previous one while there is
/// one, no other choice changes, and each arrow undoes the other.
pub proof fn lemma_arrows_walk_the_options(s: AppStateView, f: AppField, g: AppField)
    requires
        s.step == Step::Configure,
        s.active_field == f,
        is_list_field(f),
        is_list_field(g),
        g != f,
        s.disks.len() <= usize::MAX,
    ensures
        choice_index(on_key(s, Key::Right).0, f) == (if choice_index(s, f) + 1 < option_count(s, f) {
            choice_index(s, f) + 1
        } else {
            choice_index(s, f)
        }),
        choice_index(on_key(s, Key::Left).0, f) == (if choice_index(s, f) > 0 {
            choice_index(s, f) - 1
        } else {
            choice_index(s, f)
        }),
        choice_index(on_key(s, Key::Right).0, g) == choice_index(s, g),
        choice_index(on_key(s, Key::Left).0, g) == choice_index(s, g),
        (0 < choice_index(s, f) && choice_index(s, f) < option_count(s, f)) ==> on_key(
            on_key(s, Key::Left).0,
            Key::Right,
        ).0 == s,
        choice_index(s, f) + 1 < option_count(s, f) ==> on_key(on_key(s, Key::Right).0, Key::Left).0
            == s,
{
    assert(gpu_names().len() == 3);
    assert(dm_names().len() == 3);
    assert(locale_names().len() == 2);
    assert(timezone_names().len() == 1);
    assert(keymap_names().len() == 1);
    if 0 < choice_index(s, f) && choice_index(s, f) < option_count(s, f) {
        assert(on_key(on_key(s, Key::Left).0, Key::Right).0 =~= s);
    }
    if choice_index(s, f) + 1 < option_count(s, f) {
        let t = on_key(s, Key::Right).0;
        assert(t.step == Step::Configure && t.active_field == f);
        assert(choice_index(t, f) == choice_index(s, f) + 1);
        assert(on_key(t, Key::Left).0 =~= s);
    }
}

// ---------------------------------------------------------------------
// Partition names
// ---------------------------------------------------------------------

/// A partition's name is the disk's name, then `p` for NVMe and MMC
/// devices (any name holding `nvme` or `mmcblk`), then the partition
/// number in decimal.
pub proof fn lemma_partition_name_shape(disk: Seq<char>, n: nat)
    ensures
        has_prefix(partition_name(disk, n), disk),
        (has_substring(disk, "nvme"@) || has_substring(disk, "mmcblk"@)) ==> {
            &&& partition_name(disk, n).len() == disk.len() + 1 + decimal(n).len()
            &&& partition_name(disk, n)[disk.len() as int] == 'p'
            &&& partition_name(disk, n).skip(disk.len() as int + 1) == decimal(n)
        },
        !(has_substring(disk, "nvme"@) || has_substring(disk, "mmcblk"@)) ==> {
            &&& partition_name(disk, n).len() == disk.len() + decimal(n).len()
            &&& partition_name(disk, n).skip(disk.len() as int) == decimal(n)
        },
{
    reveal_strlit("p");
    let p = partition_name(disk, n);
    assert(p.subrange(0, disk.len() as int) =~= disk);
    if has_substring(disk, "nvme"@) || has_substring(disk, "mmcblk"@) {
        assert(p.skip(disk.len() as int + 1) =~= decimal(n));
    } else {
        assert(p.skip(disk.len() as int) =~= decimal(n));
    }
}

// ---------------------------------------------------------------------
// Networks found by a scan
// ---------------------------------------------------------------------

/// A line of the scan that names a network: not blank and without the
/// table's title, rule or column heads.
pub open spec fn names_a_network(t: Seq<char>) -> bool {
    t.len() > 0 && !has_substring(t, "Available networks"@) && !has_substring(t, "---"@)
        && !has_substring(t, "Network name"@)
}

proof fn lemma_collect_grows(lines: Seq<Seq<char>>, known: Seq<Seq<char>>, x: Seq<char>)
    requires
        known.contains(x),
    ensures
        collect_networks(lines, known).contains(x),
    decreases lines.len(),
{
    if lines.len() > 0 {
        lemma_collect_grows(lines.drop_last(), known, x);
        let acc = collect_networks(lines.drop_last(), known);
        let i = choose|i: int| 0 <= i < acc.len() && acc[i] == x;
        let r = collect_networks(lines, known);
        if r != acc {
            assert(r[i] == x);
        }
    }
}

proof fn lemma_collect_takes_every_line(lines: Seq<Seq<char>>, known: Seq<Seq<char>>, k: int)
    requires
        0 <= k < lines.len(),
        names_a_network(trim(lines[k])),
    ensures
        collect_networks(lines, known).contains(first_word(trim(lines[k]))),
    decreases lines.len(),
{
    let x = first_word(trim(lines[k]));
    let acc = collect_networks(lines.drop_last(), known);
    let r = collect_networks(lines, known);
    if k < lines.len() - 1 {
        assert(lines.drop_last()[k] == lines[k]);
        lemma_collect_takes_every_line(lines.drop_last(), known, k);
        let i = choose|i: int| 0 <= i < acc.len() && acc[i] == x;
        if r != acc {
            assert(r[i] == x);
        }
    } else {
        assert(lines.last() == lines[k]);
        if !acc.contains(x) {
            assert(r[acc.len() as int] == x);
        }
    }
}

/// Every line of a scan that names a network puts its first word in the
/// list, and going on without Wi-Fi stays in it.
pub proof fn lemma_scan_lists_every_network(output: Seq<char>, k: int)
    requires
        0 <= k < split_lines(output).len(),
        names_a_network(trim(split_lines(output)[k])),
    ensures
        scanned_networks(output).contains(first_word(trim(split_lines(output)[k]))),
        scanned_networks(output).contains(wired_option()),
{
    lemma_collect_takes_every_line(split_lines(output), seq![wired_option()], k);
    assert(seq![wired_option()][0] == wired_option());
    lemma_collect_grows(split_lines(output), seq![wired_option()], wired_option());
}

// ---------------------------------------------------------------------
// Formatting and mounting
// ---------------------------------------------------------------------

/// The device that an action formats with `tool`: the last argument of a
/// run of that program.
pub open spec fn formatted_with(a: ActionView, tool: Seq<char>) -> Option<Seq<char>> {
    match a {
        ActionView::Run { program, args, .. } => if program == tool && args.len() > 0 {
            Some(args.last())
        } else {
            None
        },
        _ => None,
    }
}

/// The device and the mount point of an action that runs `mount`.
pub open spec fn mount_of(a: ActionView) -> Option<(Seq<char>, Seq<char>)> {
    match a {
        ActionView::Run { program, args, .. } => if program == "mount"@ && args.len() == 2 {
            Some((args[0], args[1]))
        } else {
            None
        },
        _ => None,
    }
}

/// Every ext4 format is of `root`, every FAT format of `boot`, whatever is
/// mounted on `/mnt` is `root` and whatever is mounted on `/mnt/boot` is
/// `boot`.
pub open spec fn mounts_agree(p: Seq<ActionView>, root: Seq<char>, boot: Seq<char>) -> bool {
    &&& forall|i: int|
        #![trigger p[i]]
        0 <= i < p.len() && formatted_with(p[i], "mkfs.ext4"@) is Some ==> formatted_with(
            p[i],
            "mkfs.ext4"@,
        )->0 == root
    &&& forall|i: int|
        #![trigger p[i]]
        0 <= i < p.len() && formatted_with(p[i], "mkfs.fat"@) is Some ==> formatted_with(
            p[i],
            "mkfs.fat"@,
        )->0 == boot
    &&& forall|i: int|
        #![trigger p[i]]
        0 <= i < p.len() && mount_of(p[i]) is Some && (mount_of(p[i])->0).1 == "/mnt"@ ==> (mount_of(p[i])->0).0 == root
    &&& forall|i: int|
        #![trigger p[i]]
        0 <= i < p.len() && mount_of(p[i]) is Some && (mount_of(p[i])->0).1 == "/mnt/boot"@
            ==> (mount_of(p[i])->0).0 == boot
}

/// Actions that neither format nor mount anything.
pub open spec fn touches_no_device(p: Seq<ActionView>) -> bool {
    forall|i: int|
        #![trigger p[i]]
        0 <= i < p.len() ==> formatted_with(p[i], "mkfs.ext4"@) is None && formatted_with(
            p[i],
            "mkfs.fat"@,
        ) is None && mount_of(p[i]) is None
}

proof fn lemma_program_names_differ()
    ensures
        "mount"@ != "timedatectl"@,
        "mount"@ != "sgdisk"@,
        "mount"@ != "mkfs.fat"@,
        "mount"@ != "mkfs.ext4"@,
        "mount"@ != "mkdir"@,
        "mount"@ != "fallocate"@,
        "mount"@ != "chmod"@,
        "mount"@ != "mkswap"@,
        "mount"@ != "reflector"@,
        "mount"@ != "pacstrap"@,
        "mount"@ != "sh"@,
        "mount"@ != "arch-chroot"@,
        "mkfs.ext4"@ != "timedatectl"@,
        "mkfs.ext4"@ != "sgdisk"@,
        "mkfs.ext4"@ != "mkfs.fat"@,
        "mkfs.ext4"@ != "mkdir"@,
        "mkfs.ext4"@ != "fallocate"@,
        "mkfs.ext4"@ != "chmod"@,
        "mkfs.ext4"@ != "mkswap"@,
        "mkfs.ext4"@ != "reflector"@,
        "mkfs.ext4"@ != "pacstrap"@,
        "mkfs.ext4"@ != "sh"@,
        "mkfs.ext4"@ != "arch-chroot"@,
        "mkfs.fat"@ != "timedatectl"@,
        "mkfs.fat"@ != "sgdisk"@,
        "mkfs.fat"@ != "mkdir"@,
        "mkfs.fat"@ != "fallocate"@,
        "mkfs.fat"@ != "chmod"@,
        "mkfs.fat"@ != "mkswap"@,
        "mkfs.fat"@ != "reflector"@,
        "mkfs.fat"@ != "pacstrap"@,
        "mkfs.fat"@ != "sh"@,
        "mkfs.fat"@ != "arch-chroot"@,
        "/mnt"@ != "/mnt/boot"@,
{
    reveal_strlit("mount");
    reveal_strlit("timedatectl");
    reveal_strlit("sgdisk");
    reveal_strlit("mkfs.fat");
    reveal_strlit("mkfs.ext4");
    reveal_strlit("mkdir");
    reveal_strlit("fallocate");
    reveal_strlit("chmod");
    reveal_strlit("mkswap");
    reveal_strlit("reflector");
    reveal_strlit("pacstrap");
    reveal_strlit("sh");
    reveal_strlit("arch-chroot");
    reveal_strlit("/mnt");
    reveal_strlit("/mnt/boot");
    assert("mkfs.ext4"@.len() == 9);
    assert("mkfs.fat"@.len() == 8);
    assert("mkdir"@.len() == 5);
    assert("/mnt"@.len() == 4);
    assert("/mnt/boot"@.len() == 9);
    assert("mount"@[1] != "mkdir"@[1]);
    assert("mount"@[0] != "chmod"@[0]);
    assert("mkfs.ext4"@[0] != "fallocate"@[0]);
    assert("mkfs.ext4"@[0] != "reflector"@[0]);
    assert("mkfs.fat"@[0] != "pacstrap"@[0]);
}

proof fn lemma_join_mounts(a: Seq<ActionView>, b: Seq<ActionView>, root: Seq<char>, boot: Seq<char>)
    requires
        mounts_agree(a, root, boot),
        mounts_agree(b, root, boot),
    ensures
        mounts_agree(a + b, root, boot),
{
    let s = a + b;
    assert forall|i: int| 0 <= i < s.len() implies s[i] == (if i < a.len() {
        a[i]
    } else {
        b[i - a.len()]
    }) by {}
    assert(mounts_agree(s, root, boot)) by {
        assert forall|i: int|
            #![trigger s[i]]
            0 <= i < s.len() implies (formatted_with(s[i], "mkfs.ext4"@) is Some ==> formatted_with(
            s[i],
            "mkfs.ext4"@,
        )->0 == root) by {
            if i < a.len() {
                assert(s[i] == a[i]);
            } else {
                assert(s[i] == b[i - a.len()]);
            }
        }
        assert forall|i: int|
            #![trigger s[i]]
            0 <= i < s.len() implies (formatted_with(s[i], "mkfs.fat"@) is Some ==> formatted_with(
            s[i],
            "mkfs.fat"@,
        )->0 == boot) by {
            if i < a.len() {
                assert(s[i] == a[i]);
            } else {
                assert(s[i] == b[i - a.len()]);
            }
        }
        assert forall|i: int|
            #![trigger s[i]]
            0 <= i < s.len() implies (mount_of(s[i]) is Some && (mount_of(s[i])->0).1 == "/mnt"@
            ==> (mount_of(s[i])->0).0 == root) by {
            if i < a.len() {
                assert(s[i] == a[i]);
            } else {
                assert(s[i] == b[i - a.len()]);
            }
        }
        assert forall|i: int|
            #![trigger s[i]]
            0 <= i < s.len() implies (mount_of(s[i]) is Some && (mount_of(s[i])->0).1 == "/mnt/boot"@
            ==> (mount_of(s[i])->0).0 == boot) by {
            if i < a.len() {
                assert(s[i] == a[i]);
            } else {
                assert(s[i] == b[i - a.len()]);
            }
        }
    }
}

proof fn lemma_quiet_phases(c: InstallConfigView, f: Frontend)
    ensures
        touches_no_device(swap_phase(c)),
        touches_no_device(base_phase(c, f)),
        touches_no_device(swap_fstab_phase(c)),
        touches_no_device(chroot_phase(c, f)),
        touches_no_device(finish_phase(f)),
{
    lemma_program_names_differ();
    let a = swap_phase(c);
    assert forall|i: int| 0 <= i < a.len() implies formatted_with(a[i], "mkfs.ext4"@) is None
        && formatted_with(a[i], "mkfs.fat"@) is None && mount_of(a[i]) is None by {}
    let a = base_phase(c, f);
    assert forall|i: int| 0 <= i < a.len() implies formatted_with(a[i], "mkfs.ext4"@) is None
        && formatted_with(a[i], "mkfs.fat"@) is None && mount_of(a[i]) is None by {}
    let a = swap_fstab_phase(c);
    assert forall|i: int| 0 <= i < a.len() implies formatted_with(a[i], "mkfs.ext4"@) is None
        && formatted_with(a[i], "mkfs.fat"@) is None && mount_of(a[i]) is None by {}
    let a = chroot_phase(c, f);
    assert forall|i: int| 0 <= i < a.len() implies formatted_with(a[i], "mkfs.ext4"@) is None
        && formatted_with(a[i], "mkfs.fat"@) is None && mount_of(a[i]) is None by {}
    let a = finish_phase(f);
    assert forall|i: int| 0 <= i < a.len() implies formatted_with(a[i], "mkfs.ext4"@) is None
        && formatted_with(a[i], "mkfs.fat"@) is None && mount_of(a[i]) is None by {}
}

proof fn lemma_quiet_agrees(p: Seq<ActionView>, root: Seq<char>, boot: Seq<char>)
    requires
        touches_no_device(p),
    ensures
        mounts_agree(p, root, boot),
{
}

/// Installing formats the second partition of the disk with ext4 and
/// mounts it on `/mnt`, formats the first with FAT and mounts it on
/// `/mnt/boot` after that, and formats or mounts on those points nothing
/// else, whatever the configuration and the front end.
pub proof fn lemma_root_on_mnt_efi_on_boot(c: InstallConfigView, f: Frontend)
    ensures
        mounts_agree(install_plan(c, f), partition_name(c.disk, 2), partition_name(c.disk, 1)),
        exists|i: int|
            0 <= i < install_plan(c, f).len() && formatted_with(install_plan(c, f)[i], "mkfs.ext4"@)
                == Some(partition_name(c.disk, 2)),
        exists|i: int|
            0 <= i < install_plan(c, f).len() && formatted_with(install_plan(c, f)[i], "mkfs.fat"@)
                == Some(partition_name(c.disk, 1)),
        exists|i: int, j: int|
            0 <= i < j < install_plan(c, f).len() && mount_of(install_plan(c, f)[i]) == Some(
                (partition_name(c.disk, 2), "/mnt"@),
            ) && mount_of(install_plan(c, f)[j]) == Some((partition_name(c.disk, 1), "/mnt/boot"@)),
{
    lemma_program_names_differ();
    let root = partition_name(c.disk, 2);
    let boot = partition_name(c.disk, 1);
    let d = disk_phase(c, f);
    assert(mounts_agree(d, root, boot)) by {
        assert forall|i: int| 0 <= i < d.len() implies (formatted_with(d[i], "mkfs.ext4"@) is Some
            ==> formatted_with(d[i], "mkfs.ext4"@)->0 == root) by {}
        assert forall|i: int| 0 <= i < d.len() implies (formatted_with(d[i], "mkfs.fat"@) is Some
            ==> formatted_with(d[i], "mkfs.fat"@)->0 == boot) by {}
        assert forall|i: int| 0 <= i < d.len() implies (mount_of(d[i]) is Some && (mount_of(d[i])->0).1
            == "/mnt"@ ==> (mount_of(d[i])->0).0 == root) by {}
        assert forall|i: int| 0 <= i < d.len() implies (mount_of(d[i]) is Some && (mount_of(d[i])->0).1
            == "/mnt/boot"@ ==> (mount_of(d[i])->0).0 == boot) by {}
    }
    lemma_quiet_phases(c, f);
    lemma_quiet_agrees(swap_phase(c), root, boot);
    lemma_quiet_agrees(base_phase(c, f), root, boot);
    lemma_quiet_agrees(swap_fstab_phase(c), root, boot);
    lemma_quiet_agrees(chroot_phase(c, f), root, boot);
    lemma_quiet_agrees(finish_phase(f), root, boot);
    let a1 = d + swap_phase(c);
    lemma_join_mounts(d, swap_phase(c), root, boot);
    let a2 = a1 + base_phase(c, f);
    lemma_join_mounts(a1, base_phase(c, f), root, boot);
    let a3 = a2 + swap_fstab_phase(c);
    lemma_join_mounts(a2, swap_fstab_phase(c), root, boot);
    let a4 = a3 + chroot_phase(c, f);
    lemma_join_mounts(a3, chroot_phase(c, f), root, boot);
    lemma_join_mounts(a4, finish_phase(f), root, boot);
    let p = install_plan(c, f);
    assert(p == a4 + finish_phase(f));
    assert(p[7] == d[7] && p[8] == d[8] && p[10] == d[10] && p[12] == d[12]);
    assert(formatted_with(p[8], "mkfs.ext4"@) == Some(root));
    assert(formatted_with(p[7], "mkfs.fat"@) == Some(boot));
    assert(mount_of(p[10]) == Some((root, "/mnt"@)));
    assert(mount_of(p[12]) == Some((boot, "/mnt/boot"@)));
}

} // verus!
