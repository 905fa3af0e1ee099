//! The texts that the terminal screens show for a state.
use vstd::prelude::*;
use vstd::string::*;
use vstd::utf8::{encode_scalar, encode_utf8};

use crate::constants::{dm_names, dms, gpu_names, gpus, keymap_names, keymaps, locale_names,
    locales, timezone_names, timezones};
use crate::packages::str_views;
use crate::state::{AppField, AppState, AppStateView, Step};
use crate::text::{
    ascii_upper, ascii_uppercase, chars_of, decimal, has_prefix, push_char, push_decimal,
    starts_with_str, views,
};

verus! {

/// How a log line is coloured.
#[derive(Clone, Copy, PartialEq, Eq, Structural, Debug)]
pub enum LogTone {
    /// A step that finished well.
    Success,
    /// Error output of a command.
    Failure,
    /// Anything else.
    Plain,
}

// ---------------------------------------------------------------------
// Specification
// ---------------------------------------------------------------------

pub open spec fn step_title_text(step: Step) -> Seq<char> {
    match step {
        Step::Wifi => "0. Conexão Wi-Fi"@,
        Step::Configure => "1. Configurar Base"@,
        Step::Review => "2. Revisar Configurações"@,
        Step::Install => "3. Instalando Sistema"@,
        Step::Success => "4. Concluído"@,
    }
}

pub open spec fn footer_text(step: Step) -> Seq<char> {
    match step {
        Step::Wifi => " [Seta Cima/Baixo] Escolher Rede | [Enter] Confirmar ou Abrir Senha | [S] Pular conexão "@,
        Step::Configure => " [Seta Cima/Baixo] Navegar | [Seta Esq/Dir] Alterar Opções | [Enter] Avançar "@,
        Step::Review => " [ESC] Voltar | [Enter] APAGAR DISCO E INSTALAR ARCH "@,
        Step::Install => " Instalando pacotes e compilando chroot scripts... Por favor aguarde. "@,
        Step::Success => " [Enter] Reiniciar o Sistema "@,
    }
}

pub open spec fn header_line(step: Step) -> Seq<char> {
    "⬡ Archism Launcher  |  Etapa Atual: "@ + step_title_text(step)
}

/// The disk shown for the state, or `fallback` when no disk is chosen.
pub open spec fn disk_or(s: AppStateView, fallback: Seq<char>) -> Seq<char> {
    if s.disk_idx < s.disks.len() {
        s.disks[s.disk_idx as int]
    } else {
        fallback
    }
}

/// The text of one field of the configuration form.
pub open spec fn form_text(s: AppStateView, field: AppField) -> Seq<char> {
    match field {
        AppField::Disk => "Disco de Destino: "@ + disk_or(s, "Nenhum"@),
        AppField::Hostname => "Nome da Máquina (Hostname): "@ + s.hostname,
        AppField::Username => "Nome de Usuário (Username): "@ + s.username,
        AppField::Locale => "Localização (Locale): "@ + locale_names()[s.locale_idx as int],
        AppField::Timezone => "Fuso Horário (Timezone): "@ + timezone_names()[s.timezone_idx as int],
        AppField::Keymap => "Layout do Teclado (Keymap): "@ + keymap_names()[s.keymap_idx as int],
        AppField::SwapSize => "Memória SWAP: "@ + decimal(s.swap_size as nat) + " GB"@,
        AppField::Dm => "Ambiente Gráfico (Interface): "@ + ascii_upper(dm_names()[s.dm_idx as int]),
        AppField::Gpu => "Driver de Vídeo (GPU): "@ + ascii_upper(gpu_names()[s.gpu_idx as int]),
        AppField::HorizontalLayout => Seq::empty(),
    }
}

/// The row of the form where a field is drawn.
pub open spec fn form_row_of(field: AppField) -> usize {
    match field {
        AppField::Disk => 0,
        AppField::Hostname => 1,
        AppField::Username => 2,
        AppField::Locale => 3,
        AppField::Timezone => 4,
        AppField::Keymap => 5,
        AppField::SwapSize => 6,
        AppField::Dm => 7,
        AppField::Gpu => 8,
        AppField::HorizontalLayout => 0,
    }
}

/// The summary shown before the disk is erased.
pub open spec fn review_summary(s: AppStateView) -> Seq<char> {
    "Por favor confirme os dados estruturais antes da formatação:\n\n• Disco Alvo: "@ + disk_or(s, ""@)
        + "\n• Hostname  : "@ + s.hostname + "\n• Usuário   : "@ + s.username
        + "\n• Locale    : "@ + locale_names()[s.locale_idx as int] + "\n• Timezone  : "@
        + timezone_names()[s.timezone_idx as int] + "\n• Keymap    : "@
        + keymap_names()[s.keymap_idx as int] + "\n• Swap File : "@ + decimal(s.swap_size as nat)
        + " GB\n• Interface : "@ + ascii_upper(dm_names()[s.dm_idx as int]) + "\n• Driver GPU: "@
        + ascii_upper(gpu_names()[s.gpu_idx as int])
        + "\n\nATENÇÃO: Prosseguir apagará todas as partições existentes no disco selecionado."@
}

pub open spec fn progress_text(s: AppStateView) -> Seq<char> {
    decimal(s.progress_percent as nat) + "% - "@ + s.progress_stage
}

pub open spec fn network_item(name: Seq<char>) -> Seq<char> {
    "  • "@ + name
}

/// The password shown as one `*` per byte of its UTF-8 encoding.
pub open spec fn password_stars(password: Seq<char>) -> Seq<char> {
    Seq::new(encode_utf8(password).len(), |i: int| '*')
}

pub open spec fn tone_of(line: Seq<char>) -> LogTone {
    if line.len() > 0 && line[0] == '✓' {
        LogTone::Success
    } else if has_prefix(line, "[ERROR]"@) {
        LogTone::Failure
    } else {
        LogTone::Plain
    }
}

/// The last `n` log lines, newest first.
pub open spec fn recent(logs: Seq<Seq<char>>, n: nat) -> Seq<Seq<char>> {
    let k = if logs.len() < n {
        logs.len()
    } else {
        n
    };
    Seq::new(k, |i: int| logs[logs.len() - 1 - i])
}

// ---------------------------------------------------------------------
// Executable functions
// ---------------------------------------------------------------------

/// The title of a screen.
pub fn step_title(step: Step) -> (r: &'static str)
    ensures
        r@ == step_title_text(step),
{
    match step {
        Step::Wifi => "0. Conexão Wi-Fi",
        Step::Configure => "1. Configurar Base",
        Step::Review => "2. Revisar Configurações",
        Step::Install => "3. Instalando Sistema",
        Step::Success => "4. Concluído",
    }
}

/// The key help at the bottom of a screen.
pub fn footer_hint(step: Step) -> (r: &'static str)
    ensures
        r@ == footer_text(step),
{
    match step {
        Step::Wifi => " [Seta Cima/Baixo] Escolher Rede | [Enter] Confirmar ou Abrir Senha | [S] Pular conexão ",
        Step::Configure => " [Seta Cima/Baixo] Navegar | [Seta Esq/Dir] Alterar Opções | [Enter] Avançar ",
        Step::Review => " [ESC] Voltar | [Enter] APAGAR DISCO E INSTALAR ARCH ",
        Step::Install => " Instalando pacotes e compilando chroot scripts... Por favor aguarde. ",
        Step::Success => " [Enter] Reiniciar o Sistema ",
    }
}

/// The header line of a screen.
pub fn header(step: Step) -> (r: String)
    ensures
        r@ == header_line(step),
{
    let mut r = String::from_str("⬡ Archism Launcher  |  Etapa Atual: ");
    r.append(step_title(step));
    r
}

/// The row of the form where `field` is drawn.
pub fn form_row(field: AppField) -> (r: usize)
    ensures
        r == form_row_of(field),
{
    match field {
        AppField::Disk => 0,
        AppField::Hostname => 1,
        AppField::Username => 2,
        AppField::Locale => 3,
        AppField::Timezone => 4,
        AppField::Keymap => 5,
        AppField::SwapSize => 6,
        AppField::Dm => 7,
        AppField::Gpu => 8,
        AppField::HorizontalLayout => 0,
    }
}

/// One entry of the network list.
pub fn network_line(name: &str) -> (r: String)
    ensures
        r@ == network_item(name@),
{
    let mut r = String::from_str("  • ");
    r.append(name);
    r
}

proof fn lemma_scalar_width(c: char)
    ensures
        encode_scalar(c as u32).len() == (if (c as u32) < 0x80 {
            1int
        } else if (c as u32) < 0x800 {
            2int
        } else if (c as u32) < 0x10000 {
            3int
        } else {
            4int
        }),
{
    vstd::utf8::char_is_scalar(c);
}

/// The number of bytes of the UTF-8 encoding of `c`.
fn utf8_width(c: char) -> (r: usize)
    ensures
        r == encode_scalar(c as u32).len(),
{
    proof {
        lemma_scalar_width(c);
    }
    let u = c as u32;
    if u < 0x80 {
        1
    } else if u < 0x800 {
        2
    } else if u < 0x10000 {
        3
    } else {
        4
    }
}

/// One `*` for each byte of the password.
pub fn password_mask(password: &str) -> (r: String)
    ensures
        r@ == password_stars(password@),
{
    let chars = chars_of(password);
    let mut r = String::new();
    let mut i: usize = 0;
    assert(chars@.skip(0) =~= chars@);
    while i < chars.len()
        invariant
            i <= chars@.len(),
            chars@ == password@,
            r@.len() + encode_utf8(chars@.skip(i as int)).len() == encode_utf8(chars@).len(),
            forall|k: int| 0 <= k < r@.len() ==> r@[k] == '*',
        decreases chars.len() - i,
    {
        let w = utf8_width(chars[i]);
        assert(chars@.skip(i as int).drop_first() =~= chars@.skip(i + 1));
        assert(chars@.skip(i as int)[0] == chars@[i as int]);
        assert(encode_utf8(chars@.skip(i as int)) == encode_scalar(chars@[i as int] as u32)
            + encode_utf8(chars@.skip(i + 1)));
        let ghost base = r@.len();
        let mut k: usize = 0;
        while k < w
            invariant
                k <= w,
                forall|m: int| 0 <= m < r@.len() ==> r@[m] == '*',
                r@.len() == base + k,
            decreases w - k,
        {
            push_char(&mut r, '*');
            k = k + 1;
        }
        i = i + 1;
    }
    assert(chars@.skip(chars@.len() as int) =~= Seq::<char>::empty());
    assert(r@ =~= password_stars(password@));
    r
}

/// How to colour a log line.
pub fn log_tone(line: &str) -> (r: LogTone)
    ensures
        r == tone_of(line@),
{
    let chars = chars_of(line);
    if chars.len() > 0 && chars[0] == '✓' {
        LogTone::Success
    } else if starts_with_str(line, "[ERROR]") {
        LogTone::Failure
    } else {
        LogTone::Plain
    }
}

impl AppState {
    /// The text of one field of the configuration form.
    pub fn form_line(&self, field: AppField) -> (r: String)
        requires
            self@.choices_in_range(),
        ensures
            r@ == form_text(self@, field),
    {
        match field {
            AppField::Disk => {
                let mut r = String::from_str("Disco de Destino: ");
                if self.disk_idx < self.disks.len() {
                    r.append(self.disks[self.disk_idx].as_str());
                } else {
                    r.append("Nenhum");
                }
                r
            },
            AppField::Hostname => {
                let mut r = String::from_str("Nome da Máquina (Hostname): ");
                r.append(self.hostname.as_str());
                r
            },
            AppField::Username => {
                let mut r = String::from_str("Nome de Usuário (Username): ");
                r.append(self.username.as_str());
                r
            },
            AppField::Locale => {
                let l = locales();
                assert(str_views(l@)[self.locale_idx as int] == l@[self.locale_idx as int]@);
                let mut r = String::from_str("Localização (Locale): ");
                r.append(l[self.locale_idx]);
                r
            },
            AppField::Timezone => {
                let t = timezones();
                assert(str_views(t@)[self.timezone_idx as int] == t@[self.timezone_idx as int]@);
                let mut r = String::from_str("Fuso Horário (Timezone): ");
                r.append(t[self.timezone_idx]);
                r
            },
            AppField::Keymap => {
                let k = keymaps();
                assert(str_views(k@)[self.keymap_idx as int] == k@[self.keymap_idx as int]@);
                let mut r = String::from_str("Layout do Teclado (Keymap): ");
                r.append(k[self.keymap_idx]);
                r
            },
            AppField::SwapSize => {
                let mut r = String::from_str("Memória SWAP: ");
                push_decimal(&mut r, self.swap_size);
                r.append(" GB");
                r
            },
            AppField::Dm => {
                let d = dms();
                assert(str_views(d@)[self.dm_idx as int] == d@[self.dm_idx as int]@);
                let mut r = String::from_str("Ambiente Gráfico (Interface): ");
                let up = ascii_uppercase(d[self.dm_idx]);
                r.append(up.as_str());
                r
            },
            AppField::Gpu => {
                let g = gpus();
                assert(str_views(g@)[self.gpu_idx as int] == g@[self.gpu_idx as int]@);
                let mut r = String::from_str("Driver de Vídeo (GPU): ");
                let up = ascii_uppercase(g[self.gpu_idx]);
                r.append(up.as_str());
                r
            },
            AppField::HorizontalLayout => String::new(),
        }
    }

    /// The summary shown before the disk is erased.
    pub fn review_text(&self) -> (r: String)
        requires
            self@.choices_in_range(),
        ensures
            r@ == review_summary(self@),
    {
        let l = locales();
        let t = timezones();
        let k = keymaps();
        let d = dms();
        let g = gpus();
        assert(str_views(l@)[self.locale_idx as int] == l@[self.locale_idx as int]@);
        assert(str_views(t@)[self.timezone_idx as int] == t@[self.timezone_idx as int]@);
        assert(str_views(k@)[self.keymap_idx as int] == k@[self.keymap_idx as int]@);
        assert(str_views(d@)[self.dm_idx as int] == d@[self.dm_idx as int]@);
        assert(str_views(g@)[self.gpu_idx as int] == g@[self.gpu_idx as int]@);
        let mut r = String::from_str(
            "Por favor confirme os dados estruturais antes da formatação:\n\n• Disco Alvo: ",
        );
        if self.disk_idx < self.disks.len() {
            r.append(self.disks[self.disk_idx].as_str());
        } else {
            r.append("");
        }
        r.append("\n• Hostname  : ");
        r.append(self.hostname.as_str());
        r.append("\n• Usuário   : ");
        r.append(self.username.as_str());
        r.append("\n• Locale    : ");
        r.append(l[self.locale_idx]);
        r.append("\n• Timezone  : ");
        r.append(t[self.timezone_idx]);
        r.append("\n• Keymap    : ");
        r.append(k[self.keymap_idx]);
        r.append("\n• Swap File : ");
        push_decimal(&mut r, self.swap_size);
        r.append(" GB\n• Interface : ");
        let dm_up = ascii_uppercase(d[self.dm_idx]);
        r.append(dm_up.as_str());
        r.append("\n• Driver GPU: ");
        let gpu_up = ascii_uppercase(g[self.gpu_idx]);
        r.append(gpu_up.as_str());
        r.append(
            "\n\nATENÇÃO: Prosseguir apagará todas as partições existentes no disco selecionado.",
        );
        r
    }

    /// The label of the progress bar: the percentage and the stage.
    pub fn progress_label(&self) -> (r: String)
        ensures
            r@ == progress_text(self@),
    {
        let mut r = String::new();
        push_decimal(&mut r, self.progress_percent as u32);
        r.append("% - ");
        r.append(self.progress_stage.as_str());
        assert(r@ =~= progress_text(self@));
        r
    }

    /// The last `n` log lines, newest first.
    pub fn recent_logs(&self, n: usize) -> (r: Vec<String>)
        ensures
            views(r@) == recent(self@.logs, n as nat),
    {
        let len = self.logs.len();
        let k = if len < n {
            len
        } else {
            n
        };
        let mut r: Vec<String> = Vec::new();
        let mut i: usize = 0;
        while i < k
            invariant
                k <= len == self.logs@.len(),
                k == (if len < n { len } else { n }),
                i <= k,
                views(r@) =~= Seq::new(i as nat, |j: int| views(self.logs@)[len - 1 - j]),
            decreases k - i,
        {
            let ghost prev = r@;
            let line = self.logs[len - 1 - i].clone();
            assert(line@ == views(self.logs@)[len - 1 - i]);
            r.push(line);
            assert(views(r@) =~= views(prev).push(line@));
            i = i + 1;
        }
        r
    }
}

} // verus!
