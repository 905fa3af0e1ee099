//! Reading what the system tools report: the disks that `lsblk` lists and
//! the networks that `iwctl` finds, and the arguments that connect to one.
use vstd::prelude::*;
use vstd::string::*;

use crate::state::wired_option;
use crate::text::{
    char_views, chars_of, contains_str, first_word, has_substring, lines_of, same_text,
    split_lines, string_from_chars, trim, trim_bounds, views, word_end,
};

verus! {

// ---------------------------------------------------------------------
// Specification
// ---------------------------------------------------------------------

/// The device paths of the disks named in `lines`, one per non-blank line.
pub open spec fn disk_paths(lines: Seq<Seq<char>>) -> Seq<Seq<char>>
    decreases lines.len(),
{
    if lines.len() == 0 {
        Seq::empty()
    } else {
        let rest = disk_paths(lines.drop_last());
        let t = trim(lines.last());
        if t.len() > 0 {
            rest.push("/dev/"@ + t)
        } else {
            rest
        }
    }
}

/// The lines of the network scan that are table decoration, not networks.
pub open spec fn is_scan_header(t: Seq<char>) -> bool {
    has_substring(t, "Available networks"@) || has_substring(t, "---"@) || has_substring(
        t,
        "Network name"@,
    )
}

/// `known`, followed by the network names of `lines` that it does not
/// hold yet, in order and each once.
pub open spec fn collect_networks(lines: Seq<Seq<char>>, known: Seq<Seq<char>>) -> Seq<Seq<char>>
    decreases lines.len(),
{
    if lines.len() == 0 {
        known
    } else {
        let acc = collect_networks(lines.drop_last(), known);
        let t = trim(lines.last());
        if t.len() == 0 || is_scan_header(t) {
            acc
        } else if acc.contains(first_word(t)) {
            acc
        } else {
            acc.push(first_word(t))
        }
    }
}

/// The network list after a scan: going on without Wi-Fi first, then each
/// network the scan names.
pub open spec fn scanned_networks(output: Seq<char>) -> Seq<Seq<char>> {
    collect_networks(split_lines(output), seq![wired_option()])
}

/// The arguments of `iwctl` that connect to `ssid`, with the passphrase
/// when there is one.
pub open spec fn connect_args(ssid: Seq<char>, password: Seq<char>) -> Seq<Seq<char>> {
    if password.len() == 0 {
        seq!["station"@, "wlan0"@, "connect"@, ssid]
    } else {
        seq!["--passphrase"@, password, "station"@, "wlan0"@, "connect"@, ssid]
    }
}

// ---------------------------------------------------------------------
// Executable functions
// ---------------------------------------------------------------------

fn push_view(v: &mut Vec<String>, s: String)
    ensures
        views(final(v)@) == views(old(v)@).push(s@),
{
    v.push(s);
    assert(views(v@) =~= views(old(v)@).push(s@));
}

/// Whether `v` holds a string equal to `s`.
pub fn holds(v: &Vec<String>, s: &str) -> (r: bool)
    ensures
        r == views(v@).contains(s@),
{
    let mut i: usize = 0;
    while i < v.len()
        invariant
            i <= v@.len(),
            forall|k: int| 0 <= k < i ==> views(v@)[k] != s@,
        decreases v.len() - i,
    {
        if same_text(v[i].as_str(), s) {
            assert(views(v@)[i as int] == s@);
            return true;
        }
        i = i + 1;
    }
    assert(!views(v@).contains(s@));
    false
}

/// The device paths of the disks that `lsblk -d -n -o NAME` printed: each
/// non-blank line, trimmed, after `/dev/`.
pub fn disks_from_listing(output: &str) -> (r: Vec<String>)
    ensures
        views(r@) == disk_paths(split_lines(output@)),
{
    let lines = lines_of(output);
    let ghost lv = char_views(lines@);
    let mut r: Vec<String> = Vec::new();
    assert(views(r@) =~= disk_paths(lv.take(0)));
    let mut i: usize = 0;
    while i < lines.len()
        invariant
            i <= lines@.len(),
            lv == char_views(lines@),
            views(r@) == disk_paths(lv.take(i as int)),
        decreases lines.len() - i,
    {
        let line = &lines[i];
        let (a, b) = trim_bounds(line);
        assert(lv.take(i + 1).drop_last() =~= lv.take(i as int));
        assert(lv.take(i + 1).last() == line@);
        if a < b {
            let mut path = String::from_str("/dev/");
            let name = string_from_chars(line, a, b);
            path.append(name.as_str());
            push_view(&mut r, path);
        }
        i = i + 1;
    }
    assert(lv.take(lines@.len() as int) =~= lv);
    r
}

/// The network list from the output of `iwctl station wlan0
/// get-networks`: going on without Wi-Fi first, then the first word of
/// each line that names a network, each once.
pub fn networks_from_scan(output: &str) -> (r: Vec<String>)
    ensures
        views(r@) == scanned_networks(output@),
        views(r@).len() > 0,
        views(r@)[0] == wired_option(),
{
    let lines = lines_of(output);
    let ghost lv = char_views(lines@);
    let mut r: Vec<String> = Vec::new();
    push_view(&mut r, String::from_str("Usa conexão com fio (Ethernet) / Pular"));
    assert(views(r@) =~= seq![wired_option()]);
    assert(lv.take(0) =~= Seq::<Seq<char>>::empty());
    let mut i: usize = 0;
    while i < lines.len()
        invariant
            i <= lines@.len(),
            lv == char_views(lines@),
            views(r@) == collect_networks(lv.take(i as int), seq![wired_option()]),
            views(r@).len() > 0,
            views(r@)[0] == wired_option(),
        decreases lines.len() - i,
    {
        let line = &lines[i];
        let (a, b) = trim_bounds(line);
        assert(lv.take(i + 1).drop_last() =~= lv.take(i as int));
        assert(lv.take(i + 1).last() == line@);
        if a < b {
            let t = string_from_chars(line, a, b);
            let header = contains_str(t.as_str(), "Available networks") || contains_str(
                t.as_str(),
                "---",
            ) || contains_str(t.as_str(), "Network name");
            if !header {
                let tc = chars_of(t.as_str());
                let e = word_end(&tc, 0);
                assert(tc@.subrange(0, tc@.len() as int) =~= tc@);
                let ssid = string_from_chars(&tc, 0, e);
                assert(ssid@ =~= first_word(t@));
                if !holds(&r, ssid.as_str()) {
                    push_view(&mut r, ssid);
                }
            }
        }
        i = i + 1;
    }
    assert(lv.take(lines@.len() as int) =~= lv);
    r
}

/// The arguments of `iwctl` that connect to `ssid`, with `--passphrase`
/// when `password` is not empty.
pub fn wifi_connect_args(ssid: &str, password: &str) -> (r: Vec<String>)
    ensures
        views(r@) == connect_args(ssid@, password@),
{
    let mut r: Vec<String> = Vec::new();
    if !password.is_empty() {
        push_view(&mut r, String::from_str("--passphrase"));
        push_view(&mut r, String::from_str(password));
    }
    push_view(&mut r, String::from_str("station"));
    push_view(&mut r, String::from_str("wlan0"));
    push_view(&mut r, String::from_str("connect"));
    push_view(&mut r, String::from_str(ssid));
    assert(views(r@) =~= connect_args(ssid@, password@));
    r
}

} // verus!
