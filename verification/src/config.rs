//! The installation settings and the checks that guard them before any of
//! them reaches a shell command or the chroot script.
use vstd::prelude::*;
use vstd::string::*;

use crate::text::{chars_of, has_prefix, same_text, starts_with_str};

verus! {

/// What the installer is asked to set up.
#[derive(Clone, Debug)]
pub struct InstallConfig {
    pub disk: String,
    pub hostname: String,
    pub username: String,
    pub locale: String,
    pub timezone: String,
    pub keymap: String,
    pub dm: String,
    pub gpu: String,
    pub swap_size: u32,
}

/// The mathematical value of an [`InstallConfig`].
pub struct InstallConfigView {
    pub disk: Seq<char>,
    pub hostname: Seq<char>,
    pub username: Seq<char>,
    pub locale: Seq<char>,
    pub timezone: Seq<char>,
    pub keymap: Seq<char>,
    pub dm: Seq<char>,
    pub gpu: Seq<char>,
    pub swap_size: u32,
}

impl View for InstallConfig {
    type V = InstallConfigView;

    open spec fn view(&self) -> InstallConfigView {
        InstallConfigView {
            disk: self.disk@,
            hostname: self.hostname@,
            username: self.username@,
            locale: self.locale@,
            timezone: self.timezone@,
            keymap: self.keymap@,
            dm: self.dm@,
            gpu: self.gpu@,
            swap_size: self.swap_size,
        }
    }
}

/// The largest swap file, in GB, that the installer accepts.
pub const MAX_SWAP_GB: u32 = 64;

// ---------------------------------------------------------------------
// Specification
// ---------------------------------------------------------------------

/// Characters that would let a value escape its place in a shell command.
pub open spec fn is_unsafe_char(c: char) -> bool {
    c == '$' || c == '`' || c == ';' || c == '&' || c == '|' || c == '\n' || c == '\r' || c == '"'
        || c == '\'' || c == '\\' || c == '<' || c == '>'
}

/// The number of characters of `s` before its first unsafe character (the
/// whole length when there is none).
pub open spec fn clean_prefix_len(s: Seq<char>) -> nat
    decreases s.len(),
{
    if s.len() == 0 || is_unsafe_char(s[0]) {
        0
    } else {
        1 + clean_prefix_len(s.drop_first())
    }
}

/// The message for an empty field.
pub open spec fn empty_field_message(field: Seq<char>) -> Seq<char> {
    "O campo '"@ + field + "' não pode ser vazio."@
}

/// The message for a field that holds the unsafe character `c`.
pub open spec fn bad_char_message(c: char, field: Seq<char>) -> Seq<char> {
    "Caractere inválido '"@ + seq![c] + "' encontrado em '"@ + field + "'."@
}

/// The outcome of checking one field: it must be non-empty and free of
/// unsafe characters; the error names the first unsafe character.
pub open spec fn safe_check(value: Seq<char>, field: Seq<char>) -> Result<(), Seq<char>> {
    if value.len() == 0 {
        Err(empty_field_message(field))
    } else if clean_prefix_len(value) < value.len() {
        Err(bad_char_message(value[clean_prefix_len(value) as int], field))
    } else {
        Ok(())
    }
}

/// `value` holds none of the characters refused in a field.
pub open spec fn no_unsafe_chars(value: Seq<char>) -> bool {
    forall|i: int| 0 <= i < value.len() ==> !is_unsafe_char(#[trigger] value[i])
}

/// A value that passes [`safe_check`]: non-empty, no unsafe character.
pub open spec fn is_safe_value(value: Seq<char>) -> bool {
    value.len() > 0 && forall|i: int| 0 <= i < value.len() ==> !is_unsafe_char(#[trigger] value[i])
}

pub open spec fn bad_disk_message() -> Seq<char> {
    "Caminho de disco inválido: deve iniciar com /dev/."@
}

pub open spec fn swap_too_large_message() -> Seq<char> {
    "O tamanho de swap não pode exceder 64 GB."@
}

pub open spec fn unknown_dm_message(dm: Seq<char>) -> Seq<char> {
    "Gerenciador de login desconhecido: "@ + dm
}

/// The outcome of checking a whole configuration, in the order the checks
/// are made.
pub open spec fn config_check(c: InstallConfigView) -> Result<(), Seq<char>> {
    if !has_prefix(c.disk, "/dev/"@) {
        Err(bad_disk_message())
    } else if c.swap_size > 64 {
        Err(swap_too_large_message())
    } else if safe_check(c.hostname, "hostname"@) is Err {
        safe_check(c.hostname, "hostname"@)
    } else if safe_check(c.username, "username"@) is Err {
        safe_check(c.username, "username"@)
    } else if safe_check(c.locale, "locale"@) is Err {
        safe_check(c.locale, "locale"@)
    } else if safe_check(c.timezone, "timezone"@) is Err {
        safe_check(c.timezone, "timezone"@)
    } else if safe_check(c.keymap, "keymap"@) is Err {
        safe_check(c.keymap, "keymap"@)
    } else {
        safe_check(c.dm, "display manager"@)
    }
}

/// The display managers that the desktop installer knows.
pub open spec fn is_known_dm(dm: Seq<char>) -> bool {
    dm == "gdm"@ || dm == "sddm"@ || dm == "lightdm"@
}

/// The desktop installer's check: the same as [`config_check`], then the
/// display manager must be a known one.
pub open spec fn desktop_config_check(c: InstallConfigView) -> Result<(), Seq<char>> {
    if config_check(c) is Err {
        config_check(c)
    } else if !is_known_dm(c.dm) {
        Err(unknown_dm_message(c.dm))
    } else {
        Ok(())
    }
}

/// The mathematical value of a check's result.
pub open spec fn outcome(r: Result<(), String>) -> Result<(), Seq<char>> {
    match r {
        Ok(_) => Ok(()),
        Err(e) => Err(e@),
    }
}

// ---------------------------------------------------------------------
// Proofs
// ---------------------------------------------------------------------

proof fn lemma_clean_prefix(s: Seq<char>, i: int)
    requires
        0 <= i <= s.len(),
        forall|k: int| 0 <= k < i ==> !is_unsafe_char(#[trigger] s[k]),
        i == s.len() || is_unsafe_char(s[i]),
    ensures
        clean_prefix_len(s) == i,
    decreases i,
{
    if i > 0 {
        let t = s.drop_first();
        assert forall|k: int| 0 <= k < i - 1 implies !is_unsafe_char(#[trigger] t[k]) by {
            assert(t[k] == s[k + 1]);
        }
        if i < s.len() {
            assert(t[i - 1] == s[i]);
        }
        lemma_clean_prefix(t, i - 1);
    }
}

proof fn lemma_clean_prefix_all(s: Seq<char>)
    ensures
        clean_prefix_len(s) <= s.len(),
        (clean_prefix_len(s) == s.len()) <==> (forall|i: int|
            0 <= i < s.len() ==> !is_unsafe_char(#[trigger] s[i])),
    decreases s.len(),
{
    if s.len() > 0 && !is_unsafe_char(s[0]) {
        let t = s.drop_first();
        lemma_clean_prefix_all(t);
        if clean_prefix_len(s) == s.len() {
            assert forall|i: int| 0 <= i < s.len() implies !is_unsafe_char(#[trigger] s[i]) by {
                if i > 0 {
                    assert(s[i] == t[i - 1]);
                }
            }
        } else {
            let j = choose|j: int| 0 <= j < t.len() && is_unsafe_char(t[j]);
            assert(s[j + 1] == t[j]);
        }
    }
}

/// A field passes the check exactly when it is non-empty and holds no
/// unsafe character.
pub proof fn lemma_safe_check_ok(value: Seq<char>, field: Seq<char>)
    ensures
        (safe_check(value, field) is Ok) <==> is_safe_value(value),
{
    lemma_clean_prefix_all(value);
}

// ---------------------------------------------------------------------
// Executable checks
// ---------------------------------------------------------------------

/// Whether `c` is one of the characters refused in a field.
pub fn unsafe_char(c: char) -> (r: bool)
    ensures
        r == is_unsafe_char(c),
{
    c == '$' || c == '`' || c == ';' || c == '&' || c == '|' || c == '\n' || c == '\r' || c == '"'
        || c == '\'' || c == '\\' || c == '<' || c == '>'
}

/// Checks that `value` is non-empty and free of characters that a shell
/// would interpret; `field` names the value in the error message.
pub fn validate_safe(value: &str, field: &str) -> (r: Result<(), String>)
    ensures
        outcome(r) == safe_check(value@, field@),
{
    let chars = chars_of(value);
    if chars.len() == 0 {
        let mut e = String::from_str("O campo '");
        e.append(field);
        e.append("' não pode ser vazio.");
        return Err(e);
    }
    let mut i: usize = 0;
    while i < chars.len() && !unsafe_char(chars[i])
        invariant
            i <= chars@.len(),
            forall|k: int| 0 <= k < i ==> !is_unsafe_char(#[trigger] chars@[k]),
        decreases chars.len() - i,
    {
        i = i + 1;
    }
    proof {
        lemma_clean_prefix(chars@, i as int);
    }
    if i < chars.len() {
        let bad = value.substring_char(i, i + 1);
        assert(bad@ =~= seq![chars@[i as int]]);
        let mut e = String::from_str("Caractere inválido '");
        e.append(bad);
        e.append("' encontrado em '");
        e.append(field);
        e.append("'.");
        return Err(e);
    }
    Ok(())
}

/// Checks a whole configuration before installation: the disk must be a
/// `/dev/` path, the swap file at most 64 GB, and every text field safe.
pub fn validate_config(cfg: &InstallConfig) -> (r: Result<(), String>)
    ensures
        outcome(r) == config_check(cfg@),
{
    if !starts_with_str(cfg.disk.as_str(), "/dev/") {
        return Err(String::from_str("Caminho de disco inválido: deve iniciar com /dev/."));
    }
    if cfg.swap_size > MAX_SWAP_GB {
        return Err(String::from_str("O tamanho de swap não pode exceder 64 GB."));
    }
    let r = validate_safe(cfg.hostname.as_str(), "hostname");
    if r.is_err() {
        return r;
    }
    let r = validate_safe(cfg.username.as_str(), "username");
    if r.is_err() {
        return r;
    }
    let r = validate_safe(cfg.locale.as_str(), "locale");
    if r.is_err() {
        return r;
    }
    let r = validate_safe(cfg.timezone.as_str(), "timezone");
    if r.is_err() {
        return r;
    }
    let r = validate_safe(cfg.keymap.as_str(), "keymap");
    if r.is_err() {
        return r;
    }
    validate_safe(cfg.dm.as_str(), "display manager")
}

/// Whether `dm` names a display manager the desktop installer knows.
pub fn known_dm(dm: &str) -> (r: bool)
    ensures
        r == is_known_dm(dm@),
{
    same_text(dm, "gdm") || same_text(dm, "sddm") || same_text(dm, "lightdm")
}

/// The desktop installer's check: [`validate_config`], then the display
/// manager must be `gdm`, `sddm` or `lightdm`.
pub fn validate_desktop_config(cfg: &InstallConfig) -> (r: Result<(), String>)
    ensures
        outcome(r) == desktop_config_check(cfg@),
{
    let r = validate_config(cfg);
    if r.is_err() {
        return r;
    }
    if !known_dm(cfg.dm.as_str()) {
        let mut e = String::from_str("Gerenciador de login desconhecido: ");
        e.append(cfg.dm.as_str());
        return Err(e);
    }
    Ok(())
}

} // verus!
