//! The installer's screen state and how it reacts to keys, to Wi-Fi
//! results and to the progress of an installation.
use vstd::prelude::*;
use vstd::string::*;
use vstd::utf8::encode_utf8;

use crate::command::{fatal_line, fatal_log_line};
use crate::config::{is_unsafe_char, no_unsafe_chars, InstallConfig, InstallConfigView, MAX_SWAP_GB};
use crate::constants::{
    dm_names, dms, gpu_names, gpus, keymap_names, keymaps, locale_names, locales, timezone_names,
    timezones,
};
use crate::packages::str_views;
use crate::text::{
    char_is_lowercase, char_is_numeric, chars_of, digit_value, is_lowercase, is_numeric, pop_char, push_char,
    to_decimal_digit, trim, trimmed, views,
};

verus! {

/// The screens of the installer, in the order the user goes through them.
#[derive(Clone, Copy, PartialEq, Eq, Structural, Debug)]
pub enum Step {
    Wifi,
    Configure,
    Review,
    Install,
    Success,
}

/// The fields of the configuration form.
#[derive(Clone, Copy, PartialEq, Eq, Structural, Debug)]
pub enum AppField {
    Disk,
    HorizontalLayout,
    Hostname,
    Username,
    Locale,
    Timezone,
    Keymap,
    SwapSize,
    Dm,
    Gpu,
}

/// A key press, as far as the installer tells keys apart.
#[derive(Clone, Copy, PartialEq, Eq, Structural, Debug)]
pub enum Key {
    Char(char),
    Up,
    Down,
    Left,
    Right,
    Enter,
    Backspace,
    Esc,
    Other,
}

/// What the caller has to do after a key press.
pub enum KeyOutcome {
    /// Nothing beyond redrawing.
    Stay,
    /// Leave the installer.
    Quit,
    /// Connect to the network `ssid` with `password` (empty for an open
    /// network).
    ConnectWifi { ssid: String, password: String },
    /// Install the system described by the configuration.
    Install(InstallConfig),
    /// Restart the machine and leave.
    Reboot,
}

pub enum OutcomeView {
    Stay,
    Quit,
    ConnectWifi { ssid: Seq<char>, password: Seq<char> },
    Install(InstallConfigView),
    Reboot,
}

impl View for KeyOutcome {
    type V = OutcomeView;

    open spec fn view(&self) -> OutcomeView {
        match self {
            KeyOutcome::Stay => OutcomeView::Stay,
            KeyOutcome::Quit => OutcomeView::Quit,
            KeyOutcome::ConnectWifi { ssid, password } => OutcomeView::ConnectWifi {
                ssid: ssid@,
                password: password@,
            },
            KeyOutcome::Install(c) => OutcomeView::Install(c@),
            KeyOutcome::Reboot => OutcomeView::Reboot,
        }
    }
}

/// Everything the installer shows and remembers.
pub struct AppState {
    pub step: Step,
    pub active_field: AppField,
    pub disks: Vec<String>,
    pub disk_idx: usize,
    pub hostname: String,
    pub username: String,
    pub locale_idx: usize,
    pub timezone_idx: usize,
    pub keymap_idx: usize,
    pub swap_size: u32,
    pub dm_idx: usize,
    pub gpu_idx: usize,
    pub logs: Vec<String>,
    pub progress_percent: u8,
    pub progress_stage: String,
    pub error_message: Option<String>,
    pub wifi_list: Vec<String>,
    pub wifi_idx: usize,
    pub wifi_password: String,
    pub wifi_input_mode: bool,
    pub wifi_status: String,
}

/// The mathematical value of an [`AppState`].
#[verifier::ext_equal]
pub struct AppStateView {
    pub step: Step,
    pub active_field: AppField,
    pub disks: Seq<Seq<char>>,
    pub disk_idx: usize,
    pub hostname: Seq<char>,
    pub username: Seq<char>,
    pub locale_idx: usize,
    pub timezone_idx: usize,
    pub keymap_idx: usize,
    pub swap_size: u32,
    pub dm_idx: usize,
    pub gpu_idx: usize,
    pub logs: Seq<Seq<char>>,
    pub progress_percent: u8,
    pub progress_stage: Seq<char>,
    pub error_message: Option<Seq<char>>,
    pub wifi_list: Seq<Seq<char>>,
    pub wifi_idx: usize,
    pub wifi_password: Seq<char>,
    pub wifi_input_mode: bool,
    pub wifi_status: Seq<char>,
}

pub open spec fn option_view(o: Option<String>) -> Option<Seq<char>> {
    match o {
        Some(s) => Some(s@),
        None => None,
    }
}

impl View for AppState {
    type V = AppStateView;

    open spec fn view(&self) -> AppStateView {
        AppStateView {
            step: self.step,
            active_field: self.active_field,
            disks: views(self.disks@),
            disk_idx: self.disk_idx,
            hostname: self.hostname@,
            username: self.username@,
            locale_idx: self.locale_idx,
            timezone_idx: self.timezone_idx,
            keymap_idx: self.keymap_idx,
            swap_size: self.swap_size,
            dm_idx: self.dm_idx,
            gpu_idx: self.gpu_idx,
            logs: views(self.logs@),
            progress_percent: self.progress_percent,
            progress_stage: self.progress_stage@,
            error_message: option_view(self.error_message),
            wifi_list: views(self.wifi_list@),
            wifi_idx: self.wifi_idx,
            wifi_password: self.wifi_password@,
            wifi_input_mode: self.wifi_input_mode,
            wifi_status: self.wifi_status@,
        }
    }
}

// ---------------------------------------------------------------------
// Specification
// ---------------------------------------------------------------------

/// The first entry of the network list: go on without Wi-Fi.
pub open spec fn wired_option() -> Seq<char> {
    "Usa conexão com fio (Ethernet) / Pular"@
}

impl AppStateView {
    /// Every index points into its list, the swap size is within the
    /// allowed range and the network list is never empty.
    pub open spec fn wf(self) -> bool {
        &&& (self.disk_idx == 0 || self.disk_idx < self.disks.len())
        &&& self.choices_in_range()
        &&& self.swap_size <= 64
        &&& self.wifi_list.len() > 0
        &&& self.wifi_idx < self.wifi_list.len()
    }
}

impl AppStateView {
    /// Each choice of the form points into its list of options.
    pub open spec fn choices_in_range(self) -> bool {
        &&& self.locale_idx < locale_names().len()
        &&& self.timezone_idx < timezone_names().len()
        &&& self.keymap_idx < keymap_names().len()
        &&& self.dm_idx < dm_names().len()
        &&& self.gpu_idx < gpu_names().len()
    }
}

/// The state the installer starts in, with the disks it found.
pub open spec fn initial_state(disks: Seq<Seq<char>>) -> AppStateView {
    AppStateView {
        step: Step::Wifi,
        active_field: AppField::Disk,
        disks,
        disk_idx: 0,
        hostname: "archbox"@,
        username: ""@,
        locale_idx: 0,
        timezone_idx: 0,
        keymap_idx: 0,
        swap_size: 8,
        dm_idx: 0,
        gpu_idx: 0,
        logs: Seq::empty(),
        progress_percent: 0,
        progress_stage: Seq::empty(),
        error_message: None,
        wifi_list: seq![wired_option()],
        wifi_idx: 0,
        wifi_password: Seq::empty(),
        wifi_input_mode: false,
        wifi_status: "Aguardando ação..."@,
    }
}

/// The disk chosen in the form, or the empty text when there is none.
pub open spec fn selected_disk(s: AppStateView) -> Seq<char> {
    if s.disk_idx < s.disks.len() {
        s.disks[s.disk_idx as int]
    } else {
        Seq::empty()
    }
}

/// The configuration that the form describes.
pub open spec fn config_of(s: AppStateView) -> InstallConfigView {
    InstallConfigView {
        disk: selected_disk(s),
        hostname: s.hostname,
        username: s.username,
        locale: locale_names()[s.locale_idx as int],
        timezone: timezone_names()[s.timezone_idx as int],
        keymap: keymap_names()[s.keymap_idx as int],
        dm: dm_names()[s.dm_idx as int],
        gpu: gpu_names()[s.gpu_idx as int],
        swap_size: s.swap_size,
    }
}

/// The form may be left: there is a disk, a host name that is not blank,
/// and a user name of at least two bytes once trimmed.
pub open spec fn ready(s: AppStateView) -> bool {
    &&& s.disks.len() > 0
    &&& trim(s.hostname).len() > 0
    &&& encode_utf8(trim(s.username)).len() >= 2
}

/// `q` and `Q` leave the installer, except while a password, a host name
/// or a user name is being typed.
pub open spec fn quits(s: AppStateView, key: Key) -> bool {
    &&& !s.wifi_input_mode
    &&& s.active_field != AppField::Hostname
    &&& s.active_field != AppField::Username
    &&& (key == Key::Char('q') || key == Key::Char('Q'))
}

/// The field above `f` in the form, wrapping around at the top.
pub open spec fn field_above(f: AppField) -> AppField {
    match f {
        AppField::Disk => AppField::Gpu,
        AppField::HorizontalLayout => AppField::HorizontalLayout,
        AppField::Hostname => AppField::Disk,
        AppField::Username => AppField::Hostname,
        AppField::Locale => AppField::Username,
        AppField::Timezone => AppField::Locale,
        AppField::Keymap => AppField::Timezone,
        AppField::SwapSize => AppField::Keymap,
        AppField::Dm => AppField::SwapSize,
        AppField::Gpu => AppField::Dm,
    }
}

/// The field below `f` in the form, wrapping around at the bottom.
pub open spec fn field_below(f: AppField) -> AppField {
    match f {
        AppField::Disk => AppField::Hostname,
        AppField::HorizontalLayout => AppField::HorizontalLayout,
        AppField::Hostname => AppField::Username,
        AppField::Username => AppField::Locale,
        AppField::Locale => AppField::Timezone,
        AppField::Timezone => AppField::Keymap,
        AppField::Keymap => AppField::SwapSize,
        AppField::SwapSize => AppField::Dm,
        AppField::Dm => AppField::Gpu,
        AppField::Gpu => AppField::Disk,
    }
}

/// The characters a user name may be typed with.
pub open spec fn username_char(c: char) -> bool {
    char_is_lowercase(c) || char_is_numeric(c) || c == '_' || c == '-'
}

/// `t` without its last character, if it has one.
pub open spec fn without_last(t: Seq<char>) -> Seq<char> {
    if t.len() > 0 {
        t.drop_last()
    } else {
        t
    }
}

/// Left arrow in the form: the previous choice of the active list.
pub open spec fn choose_previous(s: AppStateView) -> AppStateView {
    match s.active_field {
        AppField::Disk => if s.disk_idx > 0 { AppStateView { disk_idx: (s.disk_idx - 1) as usize, ..s } } else { s },
        AppField::Locale => if s.locale_idx > 0 { AppStateView { locale_idx: (s.locale_idx - 1) as usize, ..s } } else { s },
        AppField::Timezone => if s.timezone_idx > 0 { AppStateView { timezone_idx: (s.timezone_idx - 1) as usize, ..s } } else { s },
        AppField::Keymap => if s.keymap_idx > 0 { AppStateView { keymap_idx: (s.keymap_idx - 1) as usize, ..s } } else { s },
        AppField::Dm => if s.dm_idx > 0 { AppStateView { dm_idx: (s.dm_idx - 1) as usize, ..s } } else { s },
        AppField::Gpu => if s.gpu_idx > 0 { AppStateView { gpu_idx: (s.gpu_idx - 1) as usize, ..s } } else { s },
        _ => s,
    }
}

/// Right arrow in the form: the next choice of the active list.
pub open spec fn choose_next(s: AppStateView) -> AppStateView {
    match s.active_field {
        AppField::Disk => if s.disk_idx + 1 < s.disks.len() { AppStateView { disk_idx: (s.disk_idx + 1) as usize, ..s } } else { s },
        AppField::Locale => if s.locale_idx + 1 < locale_names().len() { AppStateView { locale_idx: (s.locale_idx + 1) as usize, ..s } } else { s },
        AppField::Timezone => if s.timezone_idx + 1 < timezone_names().len() { AppStateView { timezone_idx: (s.timezone_idx + 1) as usize, ..s } } else { s },
        AppField::Keymap => if s.keymap_idx + 1 < keymap_names().len() { AppStateView { keymap_idx: (s.keymap_idx + 1) as usize, ..s } } else { s },
        AppField::Dm => if s.dm_idx + 1 < dm_names().len() { AppStateView { dm_idx: (s.dm_idx + 1) as usize, ..s } } else { s },
        AppField::Gpu => if s.gpu_idx + 1 < gpu_names().len() { AppStateView { gpu_idx: (s.gpu_idx + 1) as usize, ..s } } else { s },
        _ => s,
    }
}

/// A character typed in the form.
pub open spec fn type_char(s: AppStateView, c: char) -> AppStateView {
    match s.active_field {
        AppField::Hostname => AppStateView { hostname: s.hostname.push(c), ..s },
        AppField::Username => if username_char(c) {
            AppStateView { username: s.username.push(c), ..s }
        } else {
            s
        },
        AppField::SwapSize => match digit_value(c) {
            Some(d) => if s.swap_size * 10 + d <= 64 {
                AppStateView { swap_size: (s.swap_size * 10 + d) as u32, ..s }
            } else {
                s
            },
            None => s,
        },
        _ => s,
    }
}

/// Backspace in the form.
pub open spec fn erase(s: AppStateView) -> AppStateView {
    match s.active_field {
        AppField::Hostname => AppStateView { hostname: without_last(s.hostname), ..s },
        AppField::Username => AppStateView { username: without_last(s.username), ..s },
        AppField::SwapSize => AppStateView { swap_size: s.swap_size / 10, ..s },
        _ => s,
    }
}

/// A key on the configuration form.
pub open spec fn configure_step(s: AppStateView, key: Key) -> AppStateView {
    match key {
        Key::Up => AppStateView { active_field: field_above(s.active_field), ..s },
        Key::Down => AppStateView { active_field: field_below(s.active_field), ..s },
        Key::Left => choose_previous(s),
        Key::Right => choose_next(s),
        Key::Char(c) => type_char(s, c),
        Key::Backspace => erase(s),
        Key::Enter => if ready(s) { AppStateView { step: Step::Review, ..s } } else { s },
        _ => s,
    }
}

/// A key on the network screen.
pub open spec fn wifi_step(s: AppStateView, key: Key) -> (AppStateView, OutcomeView) {
    if s.wifi_input_mode {
        match key {
            Key::Enter => if s.wifi_idx == 0 {
                (AppStateView { wifi_input_mode: false, step: Step::Configure, ..s }, OutcomeView::Stay)
            } else {
                (s, OutcomeView::ConnectWifi { ssid: s.wifi_list[s.wifi_idx as int], password: s.wifi_password })
            },
            Key::Backspace => (AppStateView { wifi_password: without_last(s.wifi_password), ..s }, OutcomeView::Stay),
            Key::Char(c) => (AppStateView { wifi_password: s.wifi_password.push(c), ..s }, OutcomeView::Stay),
            Key::Esc => (AppStateView { wifi_input_mode: false, ..s }, OutcomeView::Stay),
            _ => (s, OutcomeView::Stay),
        }
    } else {
        let next = match key {
            Key::Up => if s.wifi_idx > 0 { AppStateView { wifi_idx: (s.wifi_idx - 1) as usize, ..s } } else { s },
            Key::Down => if s.wifi_idx + 1 < s.wifi_list.len() { AppStateView { wifi_idx: (s.wifi_idx + 1) as usize, ..s } } else { s },
            Key::Char(c) => if c == 's' || c == 'S' { AppStateView { step: Step::Configure, ..s } } else { s },
            Key::Enter => if s.wifi_idx == 0 {
                AppStateView { step: Step::Configure, ..s }
            } else {
                AppStateView { wifi_password: Seq::empty(), wifi_input_mode: true, ..s }
            },
            _ => s,
        };
        (next, OutcomeView::Stay)
    }
}

/// A key on the review screen: go back, or start installing what the form
/// describes.
pub open spec fn review_step(s: AppStateView, key: Key) -> (AppStateView, OutcomeView) {
    match key {
        Key::Esc => (AppStateView { step: Step::Configure, ..s }, OutcomeView::Stay),
        Key::Enter => (AppStateView { step: Step::Install, ..s }, OutcomeView::Install(config_of(s))),
        _ => (s, OutcomeView::Stay),
    }
}

/// The key can be handled in this state: the network to connect to is in
/// the list, the list is not empty when moving down it, a typed swap size
/// fits in 32 bits, and the choices are in range when installing starts.
pub open spec fn accepts_key(s: AppStateView, key: Key) -> bool {
    quits(s, key) || match s.step {
        Step::Wifi => if s.wifi_input_mode {
            (key == Key::Enter && s.wifi_idx != 0) ==> s.wifi_idx < s.wifi_list.len()
        } else {
            key == Key::Down ==> s.wifi_list.len() > 0
        },
        Step::Configure => match key {
            Key::Char(c) => (s.active_field == AppField::SwapSize && digit_value(c) is Some) ==> s.swap_size
                * 10 + digit_value(c)->0 <= u32::MAX,
            _ => true,
        },
        Step::Review => key == Key::Enter ==> s.choices_in_range(),
        _ => true,
    }
}

/// The effect of a key press: the new state and what the caller must do.
pub open spec fn on_key(s: AppStateView, key: Key) -> (AppStateView, OutcomeView) {
    if quits(s, key) {
        (s, OutcomeView::Quit)
    } else {
        match s.step {
            Step::Wifi => wifi_step(s, key),
            Step::Configure => (configure_step(s, key), OutcomeView::Stay),
            Step::Review => review_step(s, key),
            Step::Install => (s, OutcomeView::Stay),
            Step::Success => if key == Key::Enter {
                (s, OutcomeView::Reboot)
            } else {
                (s, OutcomeView::Stay)
            },
        }
    }
}

pub open spec fn connecting_status(ssid: Seq<char>) -> Seq<char> {
    "Conectando a "@ + ssid + "..."@
}

pub open spec fn connected_status(ssid: Seq<char>) -> Seq<char> {
    "✓ Conectado com sucesso a "@ + ssid + "!"@
}

pub open spec fn connect_failed_status(ssid: Seq<char>) -> Seq<char> {
    "✕ Falha ao conectar em "@ + ssid + ". Verifique a senha."@
}

/// The state once a connection attempt to `ssid` has ended.
pub open spec fn after_connection(s: AppStateView, ssid: Seq<char>, connected: bool) -> AppStateView {
    if connected {
        AppStateView {
            wifi_status: connected_status(ssid),
            wifi_input_mode: false,
            step: Step::Configure,
            ..s
        }
    } else {
        AppStateView { wifi_status: connect_failed_status(ssid), ..s }
    }
}

// ---------------------------------------------------------------------
// Executable state
// ---------------------------------------------------------------------

/// Each character takes at least one byte in UTF-8.
proof fn lemma_encode_len(s: Seq<char>)
    ensures
        encode_utf8(s).len() >= s.len(),
    decreases s.len(),
{
    if s.len() > 0 {
        lemma_encode_len(s.drop_first());
    }
}

fn vec_views_push(v: &mut Vec<String>, s: String)
    ensures
        views(final(v)@) == views(old(v)@).push(s@),
{
    v.push(s);
    assert(views(v@) =~= views(old(v)@).push(s@));
}

impl AppState {
    /// The state the installer starts in, with the disks it found.
    pub fn new(disks: Vec<String>) -> (s: Self)
        ensures
            s@ == initial_state(views(disks@)),
            s@.wf(),
    {
        let mut wifi_list: Vec<String> = Vec::new();
        vec_views_push(&mut wifi_list, String::from_str("Usa conexão com fio (Ethernet) / Pular"));
        let logs: Vec<String> = Vec::new();
        assert(views(logs@) =~= Seq::<Seq<char>>::empty());
        assert(views(wifi_list@) =~= seq![wired_option()]);
        AppState {
            step: Step::Wifi,
            active_field: AppField::Disk,
            disks,
            disk_idx: 0,
            hostname: String::from_str("archbox"),
            username: String::from_str(""),
            locale_idx: 0,
            timezone_idx: 0,
            keymap_idx: 0,
            swap_size: 8,
            dm_idx: 0,
            gpu_idx: 0,
            logs,
            progress_percent: 0,
            progress_stage: String::new(),
            error_message: None,
            wifi_list,
            wifi_idx: 0,
            wifi_password: String::new(),
            wifi_input_mode: false,
            wifi_status: String::from_str("Aguardando ação..."),
        }
    }

    /// The configuration that the form describes.
    pub fn current_config(&self) -> (c: InstallConfig)
        requires
            self@.choices_in_range(),
        ensures
            c@ == config_of(self@),
    {
        let disk = if self.disk_idx < self.disks.len() {
            self.disks[self.disk_idx].clone()
        } else {
            String::new()
        };
        let l = locales();
        let t = timezones();
        let k = keymaps();
        let d = dms();
        let g = gpus();
        assert(str_views(l@).len() == l@.len());
        assert(str_views(t@).len() == t@.len());
        assert(str_views(k@).len() == k@.len());
        assert(str_views(d@).len() == d@.len());
        assert(str_views(g@).len() == g@.len());
        let c = InstallConfig {
            disk,
            hostname: self.hostname.clone(),
            username: self.username.clone(),
            locale: String::from_str(l[self.locale_idx]),
            timezone: String::from_str(t[self.timezone_idx]),
            keymap: String::from_str(k[self.keymap_idx]),
            dm: String::from_str(d[self.dm_idx]),
            gpu: String::from_str(g[self.gpu_idx]),
            swap_size: self.swap_size,
        };
        assert(str_views(l@)[self.locale_idx as int] == l@[self.locale_idx as int]@);
        assert(str_views(t@)[self.timezone_idx as int] == t@[self.timezone_idx as int]@);
        assert(str_views(k@)[self.keymap_idx as int] == k@[self.keymap_idx as int]@);
        assert(str_views(d@)[self.dm_idx as int] == d@[self.dm_idx as int]@);
        assert(str_views(g@)[self.gpu_idx as int] == g@[self.gpu_idx as int]@);
        c
    }

    /// Whether the form may be left for the review screen.
    pub fn can_continue(&self) -> (r: bool)
        ensures
            r == ready(self@),
    {
        if self.disks.len() == 0 {
            return false;
        }
        let host = trimmed(self.hostname.as_str());
        if host.as_str().is_empty() {
            return false;
        }
        let user = trimmed(self.username.as_str());
        let chars = chars_of(user.as_str());
        proof {
            lemma_encode_len(chars@);
        }
        if chars.len() >= 2 {
            true
        } else if chars.len() == 1 {
            assert(chars@.drop_first() =~= Seq::<char>::empty());
            assert(encode_utf8(chars@) == vstd::utf8::encode_scalar(chars@[0] as u32) + encode_utf8(
                chars@.drop_first(),
            ));
            assert(encode_utf8(chars@.drop_first()).len() == 0);
            (chars[0] as u32) >= 0x80
        } else {
            false
        }
    }

    /// Reacts to a key press and says what the caller has to do.
    pub fn handle_key(&mut self, key: Key) -> (o: KeyOutcome)
        requires
            accepts_key(old(self)@, key),
        ensures
            (final(self)@, o@) == on_key(old(self)@, key),
            old(self)@.wf() ==> final(self)@.wf(),
            no_unsafe_chars(old(self)@.username) ==> no_unsafe_chars(final(self)@.username),
    {
        let quit_key = match key {
            Key::Char(c) => c == 'q' || c == 'Q',
            _ => false,
        };
        if !self.wifi_input_mode && self.active_field != AppField::Hostname && self.active_field
            != AppField::Username && quit_key {
            return KeyOutcome::Quit;
        }
        match self.step {
            Step::Wifi => self.wifi_key(key),
            Step::Configure => {
                self.configure_key(key);
                KeyOutcome::Stay
            },
            Step::Review => self.review_key(key),
            Step::Install => KeyOutcome::Stay,
            Step::Success => {
                if key == Key::Enter {
                    KeyOutcome::Reboot
                } else {
                    KeyOutcome::Stay
                }
            },
        }
    }

    fn wifi_key(&mut self, key: Key) -> (o: KeyOutcome)
        requires
            old(self).step == Step::Wifi,
            accepts_key(old(self)@, key),
            !quits(old(self)@, key),
        ensures
            (final(self)@, o@) == wifi_step(old(self)@, key),
    {
        if self.wifi_input_mode {
            match key {
                Key::Enter => {
                    if self.wifi_idx == 0 {
                        self.wifi_input_mode = false;
                        self.step = Step::Configure;
                        KeyOutcome::Stay
                    } else {
                        let ssid = self.wifi_list[self.wifi_idx].clone();
                        let password = self.wifi_password.clone();
                        KeyOutcome::ConnectWifi { ssid, password }
                    }
                },
                Key::Backspace => {
                    pop_char(&mut self.wifi_password);
                    KeyOutcome::Stay
                },
                Key::Char(c) => {
                    push_char(&mut self.wifi_password, c);
                    KeyOutcome::Stay
                },
                Key::Esc => {
                    self.wifi_input_mode = false;
                    KeyOutcome::Stay
                },
                _ => KeyOutcome::Stay,
            }
        } else {
            match key {
                Key::Up => {
                    if self.wifi_idx > 0 {
                        self.wifi_idx = self.wifi_idx - 1;
                    }
                },
                Key::Down => {
                    if self.wifi_idx < self.wifi_list.len() - 1 {
                        self.wifi_idx = self.wifi_idx + 1;
                    }
                },
                Key::Char(c) => {
                    if c == 's' || c == 'S' {
                        self.step = Step::Configure;
                    }
                },
                Key::Enter => {
                    if self.wifi_idx == 0 {
                        self.step = Step::Configure;
                    } else {
                        self.wifi_password = String::new();
                        self.wifi_input_mode = true;
                    }
                },
                _ => {},
            }
            KeyOutcome::Stay
        }
    }

    fn configure_key(&mut self, key: Key)
        requires
            old(self).step == Step::Configure,
            accepts_key(old(self)@, key),
            !quits(old(self)@, key),
        ensures
            final(self)@ == configure_step(old(self)@, key),
            no_unsafe_chars(old(self)@.username) ==> no_unsafe_chars(final(self)@.username),
    {
        match key {
            Key::Up => {
                self.active_field = match self.active_field {
                    AppField::Disk => AppField::Gpu,
                    AppField::HorizontalLayout => AppField::HorizontalLayout,
                    AppField::Hostname => AppField::Disk,
                    AppField::Username => AppField::Hostname,
                    AppField::Locale => AppField::Username,
                    AppField::Timezone => AppField::Locale,
                    AppField::Keymap => AppField::Timezone,
                    AppField::SwapSize => AppField::Keymap,
                    AppField::Dm => AppField::SwapSize,
                    AppField::Gpu => AppField::Dm,
                };
            },
            Key::Down => {
                self.active_field = match self.active_field {
                    AppField::Disk => AppField::Hostname,
                    AppField::HorizontalLayout => AppField::HorizontalLayout,
                    AppField::Hostname => AppField::Username,
                    AppField::Username => AppField::Locale,
                    AppField::Locale => AppField::Timezone,
                    AppField::Timezone => AppField::Keymap,
                    AppField::Keymap => AppField::SwapSize,
                    AppField::SwapSize => AppField::Dm,
                    AppField::Dm => AppField::Gpu,
                    AppField::Gpu => AppField::Disk,
                };
            },
            Key::Left => self.previous_choice(),
            Key::Right => self.next_choice(),
            Key::Char(c) => self.type_in(c),
            Key::Backspace => match self.active_field {
                AppField::Hostname => {
                    pop_char(&mut self.hostname);
                },
                AppField::Username => {
                    pop_char(&mut self.username);
                },
                AppField::SwapSize => {
                    self.swap_size = self.swap_size / 10;
                },
                _ => {},
            },
            Key::Enter => {
                if self.can_continue() {
                    self.step = Step::Review;
                }
            },
            _ => {},
        }
    }

    fn previous_choice(&mut self)
        ensures
            final(self)@ == choose_previous(old(self)@),
    {
        match self.active_field {
            AppField::Disk => {
                if self.disk_idx > 0 {
                    self.disk_idx = self.disk_idx - 1;
                }
            },
            AppField::Locale => {
                if self.locale_idx > 0 {
                    self.locale_idx = self.locale_idx - 1;
                }
            },
            AppField::Timezone => {
                if self.timezone_idx > 0 {
                    self.timezone_idx = self.timezone_idx - 1;
                }
            },
            AppField::Keymap => {
                if self.keymap_idx > 0 {
                    self.keymap_idx = self.keymap_idx - 1;
                }
            },
            AppField::Dm => {
                if self.dm_idx > 0 {
                    self.dm_idx = self.dm_idx - 1;
                }
            },
            AppField::Gpu => {
                if self.gpu_idx > 0 {
                    self.gpu_idx = self.gpu_idx - 1;
                }
            },
            _ => {},
        }
    }

    fn next_choice(&mut self)
        ensures
            final(self)@ == choose_next(old(self)@),
    {
        match self.active_field {
            AppField::Disk => {
                if !self.disks.is_empty() && self.disk_idx < self.disks.len() - 1 {
                    self.disk_idx = self.disk_idx + 1;
                }
            },
            AppField::Locale => {
                if self.locale_idx < locales().len() - 1 {
                    self.locale_idx = self.locale_idx + 1;
                }
            },
            AppField::Timezone => {
                if self.timezone_idx < timezones().len() - 1 {
                    self.timezone_idx = self.timezone_idx + 1;
                }
            },
            AppField::Keymap => {
                if self.keymap_idx < keymaps().len() - 1 {
                    self.keymap_idx = self.keymap_idx + 1;
                }
            },
            AppField::Dm => {
                if self.dm_idx < dms().len() - 1 {
                    self.dm_idx = self.dm_idx + 1;
                }
            },
            AppField::Gpu => {
                if self.gpu_idx < gpus().len() - 1 {
                    self.gpu_idx = self.gpu_idx + 1;
                }
            },
            _ => {},
        }
    }

    fn type_in(&mut self, c: char)
        requires
            (old(self).active_field == AppField::SwapSize && digit_value(c) is Some) ==> old(self).swap_size
                * 10 + digit_value(c)->0 <= u32::MAX,
        ensures
            final(self)@ == type_char(old(self)@, c),
            no_unsafe_chars(old(self)@.username) ==> no_unsafe_chars(final(self)@.username),
    {
        match self.active_field {
            AppField::Hostname => push_char(&mut self.hostname, c),
            AppField::Username => {
                if is_lowercase(c) || is_numeric(c) || c == '_' || c == '-' {
                    assert(!is_unsafe_char(c));
                    let ghost before = self.username@;
                    push_char(&mut self.username, c);
                    assert(forall|i: int| 0 <= i < before.len() ==> self.username@[i] == before[i]);
                }
            },
            AppField::SwapSize => {
                if let Some(digit) = to_decimal_digit(c) {
                    let val = self.swap_size * 10 + digit;
                    if val <= MAX_SWAP_GB {
                        self.swap_size = val;
                    }
                }
            },
            _ => {},
        }
    }

    fn review_key(&mut self, key: Key) -> (o: KeyOutcome)
        requires
            key == Key::Enter ==> old(self)@.choices_in_range(),
        ensures
            (final(self)@, o@) == review_step(old(self)@, key),
    {
        match key {
            Key::Esc => {
                self.step = Step::Configure;
                KeyOutcome::Stay
            },
            Key::Enter => {
                self.step = Step::Install;
                KeyOutcome::Install(self.current_config())
            },
            _ => KeyOutcome::Stay,
        }
    }

    /// Shows that a connection to `ssid` is being attempted.
    pub fn begin_wifi_connection(&mut self, ssid: &str)
        ensures
            final(self)@ == (AppStateView { wifi_status: connecting_status(ssid@), ..old(self)@ }),
    {
        let mut status = String::from_str("Conectando a ");
        status.append(ssid);
        status.append("...");
        self.wifi_status = status;
    }

    /// Records how the connection attempt to `ssid` ended: on success the
    /// form opens.
    pub fn finish_wifi_connection(&mut self, ssid: &str, connected: bool)
        ensures
            final(self)@ == after_connection(old(self)@, ssid@, connected),
    {
        if connected {
            let mut status = String::from_str("✓ Conectado com sucesso a ");
            status.append(ssid);
            status.append("!");
            self.wifi_status = status;
            self.wifi_input_mode = false;
            self.step = Step::Configure;
        } else {
            let mut status = String::from_str("✕ Falha ao conectar em ");
            status.append(ssid);
            status.append(". Verifique a senha.");
            self.wifi_status = status;
        }
    }

    /// Replaces the list of networks with the result of a scan.
    pub fn set_wifi_networks(&mut self, networks: Vec<String>)
        ensures
            final(self)@ == (AppStateView { wifi_list: views(networks@), ..old(self)@ }),
    {
        self.wifi_list = networks;
    }

    /// Shows the current stage of the installation.
    pub fn set_progress(&mut self, stage: String, percent: u8)
        ensures
            final(self)@ == (AppStateView {
                progress_stage: stage@,
                progress_percent: percent,
                ..old(self)@
            }),
    {
        self.progress_stage = stage;
        self.progress_percent = percent;
    }

    /// Adds a line to the installation log.
    pub fn push_log(&mut self, line: String)
        ensures
            final(self)@ == (AppStateView { logs: old(self)@.logs.push(line@), ..old(self)@ }),
    {
        vec_views_push(&mut self.logs, line);
    }

    /// Records that the installation stopped with `error`.
    pub fn fail_installation(&mut self, error: String)
        ensures
            final(self)@ == (AppStateView {
                error_message: Some(error@),
                logs: old(self)@.logs.push(fatal_line(error@)),
                ..old(self)@
            }),
    {
        let line = fatal_log_line(error.as_str());
        self.error_message = Some(error);
        vec_views_push(&mut self.logs, line);
    }

    /// Records that the installation finished.
    pub fn complete_installation(&mut self)
        ensures
            final(self)@ == (AppStateView { step: Step::Success, ..old(self)@ }),
    {
        self.step = Step::Success;
    }
}

} // verus!
