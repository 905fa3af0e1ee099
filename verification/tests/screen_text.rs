use archism::screen::{footer_hint, form_row, header, log_tone, network_line, password_mask, step_title, LogTone};
use archism::state::{AppField, AppState, Step};

fn state() -> AppState {
    let mut s = AppState::new(vec!["/dev/sda".to_string()]);
    s.username = "arthur".to_string();
    s
}

#[test]
fn titles_and_hints() {
    assert_eq!(step_title(Step::Wifi), "0. Conexão Wi-Fi");
    assert_eq!(step_title(Step::Success), "4. Concluído");
    assert_eq!(header(Step::Review), "⬡ Archism Launcher  |  Etapa Atual: 2. Revisar Configurações");
    assert_eq!(footer_hint(Step::Review), " [ESC] Voltar | [Enter] APAGAR DISCO E INSTALAR ARCH ");
    assert_eq!(footer_hint(Step::Success), " [Enter] Reiniciar o Sistema ");
}

#[test]
fn form_lines() {
    let mut s = state();
    assert_eq!(s.form_line(AppField::Disk), "Disco de Destino: /dev/sda");
    assert_eq!(s.form_line(AppField::Hostname), "Nome da Máquina (Hostname): archbox");
    assert_eq!(s.form_line(AppField::Username), "Nome de Usuário (Username): arthur");
    assert_eq!(s.form_line(AppField::Locale), "Localização (Locale): en_US.UTF-8");
    assert_eq!(s.form_line(AppField::Timezone), "Fuso Horário (Timezone): America/Sao_Paulo");
    assert_eq!(s.form_line(AppField::Keymap), "Layout do Teclado (Keymap): br-abnt2");
    assert_eq!(s.form_line(AppField::SwapSize), "Memória SWAP: 8 GB");
    assert_eq!(s.form_line(AppField::Dm), "Ambiente Gráfico (Interface): GDM");
    assert_eq!(s.form_line(AppField::Gpu), "Driver de Vídeo (GPU): NVIDIA");
    s.dm_idx = 2;
    assert_eq!(s.form_line(AppField::Dm), "Ambiente Gráfico (Interface): LIGHTDM");
    let none = AppState::new(Vec::new());
    assert_eq!(none.form_line(AppField::Disk), "Disco de Destino: Nenhum");
    assert_eq!(form_row(AppField::Gpu), 8);
    assert_eq!(form_row(AppField::HorizontalLayout), 0);
}

#[test]
fn review_summary_text() {
    let s = state();
    let expected = "Por favor confirme os dados estruturais antes da formatação:\n\n\
• Disco Alvo: /dev/sda\n\
• Hostname  : archbox\n\
• Usuário   : arthur\n\
• Locale    : en_US.UTF-8\n\
• Timezone  : America/Sao_Paulo\n\
• Keymap    : br-abnt2\n\
• Swap File : 8 GB\n\
• Interface : GDM\n\
• Driver GPU: NVIDIA\n\n\
ATENÇÃO: Prosseguir apagará todas as partições existentes no disco selecionado.";
    assert_eq!(s.review_text(), expected);
}

#[test]
fn progress_label_text() {
    let mut s = state();
    s.set_progress("Gerando tabela fstab".to_string(), 70);
    assert_eq!(s.progress_label(), "70% - Gerando tabela fstab");
    s.set_progress(String::new(), 100);
    assert_eq!(s.progress_label(), "100% - ");
}

#[test]
fn password_stars_count_bytes() {
    assert_eq!(password_mask(""), "");
    assert_eq!(password_mask("abc"), "***");
    assert_eq!(password_mask("é"), "**");
    assert_eq!(password_mask("€1"), "****");
    assert_eq!(password_mask("😀"), "****");
}

#[test]
fn log_tones() {
    assert_eq!(log_tone("✓ mount finalizado"), LogTone::Success);
    assert_eq!(log_tone("[ERROR] falhou"), LogTone::Failure);
    assert_eq!(log_tone("[ERRO"), LogTone::Plain);
    assert_eq!(log_tone(""), LogTone::Plain);
}

#[test]
fn network_entries_and_recent_logs() {
    assert_eq!(network_line("Casa"), "  • Casa");
    let mut s = state();
    for k in 0..5 {
        s.push_log(format!("l{}", k));
    }
    assert_eq!(s.recent_logs(3), vec!["l4", "l3", "l2"]);
    assert_eq!(s.recent_logs(40).len(), 5);
    assert!(s.recent_logs(0).is_empty());
}
