use archism::state::{AppField, AppState, Key, KeyOutcome, Step};

fn disks() -> Vec<String> {
    vec!["/dev/sda".to_string(), "/dev/nvme0n1".to_string()]
}

fn on_form() -> AppState {
    let mut s = AppState::new(disks());
    s.step = Step::Configure;
    s
}

fn press(s: &mut AppState, k: Key) -> KeyOutcome {
    s.handle_key(k)
}

fn type_text(s: &mut AppState, text: &str) {
    for c in text.chars() {
        assert!(matches!(press(s, Key::Char(c)), KeyOutcome::Stay));
    }
}

#[test]
fn new_state_defaults() {
    let s = AppState::new(disks());
    assert_eq!(s.step, Step::Wifi);
    assert_eq!(s.active_field, AppField::Disk);
    assert_eq!(s.disks, disks());
    assert_eq!(s.disk_idx, 0);
    assert_eq!(s.hostname, "archbox");
    assert_eq!(s.username, "");
    assert_eq!((s.locale_idx, s.timezone_idx, s.keymap_idx, s.dm_idx, s.gpu_idx), (0, 0, 0, 0, 0));
    assert_eq!(s.swap_size, 8);
    assert!(s.logs.is_empty());
    assert_eq!(s.progress_percent, 0);
    assert_eq!(s.progress_stage, "");
    assert_eq!(s.error_message, None);
    assert_eq!(s.wifi_list, vec!["Usa conexão com fio (Ethernet) / Pular".to_string()]);
    assert_eq!(s.wifi_idx, 0);
    assert_eq!(s.wifi_password, "");
    assert!(!s.wifi_input_mode);
    assert_eq!(s.wifi_status, "Aguardando ação...");
}

#[test]
fn q_quits_outside_text_fields() {
    let mut s = AppState::new(disks());
    assert!(matches!(press(&mut s, Key::Char('q')), KeyOutcome::Quit));
    let mut s = on_form();
    s.active_field = AppField::Hostname;
    assert!(matches!(press(&mut s, Key::Char('Q')), KeyOutcome::Stay));
    assert_eq!(s.hostname, "archboxQ");
    s.active_field = AppField::Locale;
    assert!(matches!(press(&mut s, Key::Char('Q')), KeyOutcome::Quit));
}

#[test]
fn q_types_into_password() {
    let mut s = AppState::new(disks());
    s.wifi_list.push("casa".to_string());
    press(&mut s, Key::Down);
    press(&mut s, Key::Enter);
    assert!(s.wifi_input_mode);
    type_text(&mut s, "qé1");
    assert_eq!(s.wifi_password, "qé1");
    press(&mut s, Key::Backspace);
    assert_eq!(s.wifi_password, "qé");
    match press(&mut s, Key::Enter) {
        KeyOutcome::ConnectWifi { ssid, password } => {
            assert_eq!(ssid, "casa");
            assert_eq!(password, "qé");
        }
        _ => panic!("connection expected"),
    }
    press(&mut s, Key::Esc);
    assert!(!s.wifi_input_mode);
    assert_eq!(s.step, Step::Wifi);
}

#[test]
fn wired_option_skips_to_form() {
    let mut s = AppState::new(disks());
    press(&mut s, Key::Enter);
    assert_eq!(s.step, Step::Configure);
    let mut s = AppState::new(disks());
    press(&mut s, Key::Char('S'));
    assert_eq!(s.step, Step::Configure);
}

#[test]
fn network_cursor_stays_in_list() {
    let mut s = AppState::new(disks());
    press(&mut s, Key::Up);
    assert_eq!(s.wifi_idx, 0);
    press(&mut s, Key::Down);
    assert_eq!(s.wifi_idx, 0);
    s.set_wifi_networks(vec!["a".to_string(), "b".to_string(), "c".to_string()]);
    press(&mut s, Key::Down);
    press(&mut s, Key::Down);
    press(&mut s, Key::Down);
    assert_eq!(s.wifi_idx, 2);
    press(&mut s, Key::Up);
    assert_eq!(s.wifi_idx, 1);
}

#[test]
fn opening_password_clears_it() {
    let mut s = AppState::new(disks());
    s.set_wifi_networks(vec!["wired".to_string(), "net".to_string()]);
    s.wifi_password = "old".to_string();
    press(&mut s, Key::Down);
    press(&mut s, Key::Enter);
    assert!(s.wifi_input_mode);
    assert_eq!(s.wifi_password, "");
    press(&mut s, Key::Backspace);
    assert_eq!(s.wifi_password, "");
}

#[test]
fn password_enter_on_wired_goes_to_form() {
    let mut s = AppState::new(disks());
    s.wifi_input_mode = true;
    assert!(matches!(press(&mut s, Key::Enter), KeyOutcome::Stay));
    assert_eq!(s.step, Step::Configure);
    assert!(!s.wifi_input_mode);
}

#[test]
fn fields_cycle_up_and_down() {
    let mut s = on_form();
    let order = [
        AppField::Disk,
        AppField::Hostname,
        AppField::Username,
        AppField::Locale,
        AppField::Timezone,
        AppField::Keymap,
        AppField::SwapSize,
        AppField::Dm,
        AppField::Gpu,
    ];
    for k in 0..order.len() {
        assert_eq!(s.active_field, order[k]);
        press(&mut s, Key::Down);
    }
    assert_eq!(s.active_field, AppField::Disk);
    press(&mut s, Key::Up);
    assert_eq!(s.active_field, AppField::Gpu);
    press(&mut s, Key::Down);
    assert_eq!(s.active_field, AppField::Disk);
    s.active_field = AppField::HorizontalLayout;
    press(&mut s, Key::Down);
    assert_eq!(s.active_field, AppField::HorizontalLayout);
}

#[test]
fn choices_stay_in_range() {
    let mut s = on_form();
    press(&mut s, Key::Left);
    assert_eq!(s.disk_idx, 0);
    press(&mut s, Key::Right);
    press(&mut s, Key::Right);
    assert_eq!(s.disk_idx, 1);
    s.active_field = AppField::Dm;
    for _ in 0..5 {
        press(&mut s, Key::Right);
    }
    assert_eq!(s.dm_idx, 2);
    press(&mut s, Key::Left);
    assert_eq!(s.dm_idx, 1);
    s.active_field = AppField::Locale;
    press(&mut s, Key::Right);
    press(&mut s, Key::Right);
    assert_eq!(s.locale_idx, 1);
    s.active_field = AppField::Timezone;
    press(&mut s, Key::Right);
    assert_eq!(s.timezone_idx, 0);
    let mut empty = AppState::new(Vec::new());
    empty.step = Step::Configure;
    press(&mut empty, Key::Right);
    assert_eq!(empty.disk_idx, 0);
}

#[test]
fn username_accepts_only_some_characters() {
    let mut s = on_form();
    s.active_field = AppField::Username;
    type_text(&mut s, "Ab$c_1-é ;");
    assert_eq!(s.username, "bc_1-é");
    press(&mut s, Key::Backspace);
    assert_eq!(s.username, "bc_1-");
    type_text(&mut s, "٣Ω");
    assert_eq!(s.username, "bc_1-٣");
}

#[test]
fn swap_size_typing() {
    let mut s = on_form();
    s.active_field = AppField::SwapSize;
    assert_eq!(s.swap_size, 8);
    type_text(&mut s, "x");
    assert_eq!(s.swap_size, 8);
    press(&mut s, Key::Backspace);
    assert_eq!(s.swap_size, 0);
    type_text(&mut s, "6");
    type_text(&mut s, "4");
    assert_eq!(s.swap_size, 64);
    type_text(&mut s, "1");
    assert_eq!(s.swap_size, 64);
    press(&mut s, Key::Backspace);
    type_text(&mut s, "9");
    assert_eq!(s.swap_size, 6);
}

#[test]
fn swap_size_set_out_of_range_is_kept() {
    let mut s = on_form();
    s.active_field = AppField::SwapSize;
    s.swap_size = 100;
    type_text(&mut s, "5");
    assert_eq!(s.swap_size, 100);
    press(&mut s, Key::Backspace);
    assert_eq!(s.swap_size, 10);
}

#[test]
fn can_continue_needs_disk_host_and_user() {
    let mut s = on_form();
    assert!(!s.can_continue());
    s.username = " a ".to_string();
    assert!(!s.can_continue());
    s.username = "é".to_string();
    assert!(s.can_continue());
    s.username = "ab".to_string();
    assert!(s.can_continue());
    s.hostname = " \t ".to_string();
    assert!(!s.can_continue());
    s.hostname = "h".to_string();
    let mut none = AppState::new(Vec::new());
    none.hostname = "h".to_string();
    none.username = "ab".to_string();
    assert!(!none.can_continue());
}

#[test]
fn enter_moves_to_review_only_when_ready() {
    let mut s = on_form();
    press(&mut s, Key::Enter);
    assert_eq!(s.step, Step::Configure);
    s.username = "arthur".to_string();
    press(&mut s, Key::Enter);
    assert_eq!(s.step, Step::Review);
    press(&mut s, Key::Esc);
    assert_eq!(s.step, Step::Configure);
}

#[test]
fn review_enter_starts_installation() {
    let mut s = on_form();
    s.username = "arthur".to_string();
    s.disk_idx = 1;
    s.locale_idx = 1;
    s.dm_idx = 1;
    s.gpu_idx = 2;
    s.swap_size = 16;
    press(&mut s, Key::Enter);
    match press(&mut s, Key::Enter) {
        KeyOutcome::Install(c) => {
            assert_eq!(c.disk, "/dev/nvme0n1");
            assert_eq!(c.hostname, "archbox");
            assert_eq!(c.username, "arthur");
            assert_eq!(c.locale, "pt_BR.UTF-8");
            assert_eq!(c.timezone, "America/Sao_Paulo");
            assert_eq!(c.keymap, "br-abnt2");
            assert_eq!(c.dm, "sddm");
            assert_eq!(c.gpu, "intel");
            assert_eq!(c.swap_size, 16);
        }
        _ => panic!("installation expected"),
    }
    assert_eq!(s.step, Step::Install);
    assert!(matches!(press(&mut s, Key::Enter), KeyOutcome::Stay));
}

#[test]
fn current_config_without_disks_has_empty_disk() {
    let s = AppState::new(Vec::new());
    assert_eq!(s.current_config().disk, "");
}

#[test]
fn success_enter_reboots() {
    let mut s = on_form();
    s.complete_installation();
    assert_eq!(s.step, Step::Success);
    assert!(matches!(press(&mut s, Key::Esc), KeyOutcome::Stay));
    assert!(matches!(press(&mut s, Key::Enter), KeyOutcome::Reboot));
}

#[test]
fn wifi_connection_messages() {
    let mut s = AppState::new(disks());
    s.wifi_input_mode = true;
    s.begin_wifi_connection("casa");
    assert_eq!(s.wifi_status, "Conectando a casa...");
    s.finish_wifi_connection("casa", false);
    assert_eq!(s.wifi_status, "✕ Falha ao conectar em casa. Verifique a senha.");
    assert_eq!(s.step, Step::Wifi);
    assert!(s.wifi_input_mode);
    s.finish_wifi_connection("casa", true);
    assert_eq!(s.wifi_status, "✓ Conectado com sucesso a casa!");
    assert_eq!(s.step, Step::Configure);
    assert!(!s.wifi_input_mode);
}

#[test]
fn installation_progress_and_failure() {
    let mut s = on_form();
    s.set_progress("Gerando tabela fstab".to_string(), 70);
    assert_eq!(s.progress_stage, "Gerando tabela fstab");
    assert_eq!(s.progress_percent, 70);
    s.push_log("linha".to_string());
    s.fail_installation("boom".to_string());
    assert_eq!(s.error_message, Some("boom".to_string()));
    assert_eq!(s.logs, vec!["linha".to_string(), "[FATAL ERROR] boom".to_string()]);
}

#[test]
fn backspace_undoes_typing() {
    let mut s = on_form();
    s.active_field = AppField::Hostname;
    press(&mut s, Key::Char('x'));
    press(&mut s, Key::Backspace);
    assert_eq!(s.hostname, "archbox");
    s.active_field = AppField::SwapSize;
    s.swap_size = 3;
    press(&mut s, Key::Char('2'));
    assert_eq!(s.swap_size, 32);
    press(&mut s, Key::Backspace);
    assert_eq!(s.swap_size, 3);
    let mut w = AppState::new(disks());
    w.wifi_input_mode = true;
    w.wifi_password = "abc".to_string();
    press(&mut w, Key::Char('€'));
    press(&mut w, Key::Backspace);
    assert_eq!(w.wifi_password, "abc");
}
