use archism::config::{validate_config, validate_desktop_config, validate_safe, InstallConfig};

fn sample() -> InstallConfig {
    InstallConfig {
        disk: "/dev/sda".to_string(),
        hostname: "archbox".to_string(),
        username: "arthur".to_string(),
        locale: "en_US.UTF-8".to_string(),
        timezone: "America/Sao_Paulo".to_string(),
        keymap: "br-abnt2".to_string(),
        dm: "lightdm".to_string(),
        gpu: "nvidia".to_string(),
        swap_size: 8,
    }
}

#[test]
fn safe_value_is_accepted() {
    assert_eq!(validate_safe("archbox", "hostname"), Ok(()));
}

#[test]
fn empty_value_is_refused() {
    assert_eq!(
        validate_safe("", "hostname"),
        Err("O campo 'hostname' não pode ser vazio.".to_string())
    );
}

#[test]
fn first_unsafe_char_is_named() {
    assert_eq!(
        validate_safe("a;b$c", "username"),
        Err("Caractere inválido ';' encontrado em 'username'.".to_string())
    );
}

#[test]
fn every_unsafe_char_is_refused() {
    for c in ['$', '`', ';', '&', '|', '\n', '\r', '"', '\'', '\\', '<', '>'] {
        let value = format!("ab{}cd", c);
        let expected = format!("Caractere inválido '{}' encontrado em 'f'.", c);
        assert_eq!(validate_safe(&value, "f"), Err(expected));
    }
}

#[test]
fn non_ascii_value_is_accepted() {
    assert_eq!(validate_safe("máquina", "hostname"), Ok(()));
}

#[test]
fn sample_config_is_valid() {
    assert_eq!(validate_config(&sample()), Ok(()));
    assert_eq!(validate_desktop_config(&sample()), Ok(()));
}

#[test]
fn disk_outside_dev_is_refused() {
    let mut c = sample();
    c.disk = "sda".to_string();
    assert_eq!(
        validate_config(&c),
        Err("Caminho de disco inválido: deve iniciar com /dev/.".to_string())
    );
}

#[test]
fn swap_over_limit_is_refused() {
    let mut c = sample();
    c.swap_size = 65;
    assert_eq!(
        validate_config(&c),
        Err("O tamanho de swap não pode exceder 64 GB.".to_string())
    );
    c.swap_size = 64;
    assert_eq!(validate_config(&c), Ok(()));
}

#[test]
fn fields_are_checked_in_order() {
    let mut c = sample();
    c.username = String::new();
    c.dm = "x;y".to_string();
    assert_eq!(
        validate_config(&c),
        Err("O campo 'username' não pode ser vazio.".to_string())
    );
    c.username = "arthur".to_string();
    assert_eq!(
        validate_config(&c),
        Err("Caractere inválido ';' encontrado em 'display manager'.".to_string())
    );
}

#[test]
fn each_text_field_is_checked() {
    let names = ["hostname", "username", "locale", "timezone", "keymap", "display manager"];
    for (k, name) in names.iter().enumerate() {
        let mut c = sample();
        let bad = "a|b".to_string();
        match k {
            0 => c.hostname = bad,
            1 => c.username = bad,
            2 => c.locale = bad,
            3 => c.timezone = bad,
            4 => c.keymap = bad,
            _ => c.dm = bad,
        }
        assert_eq!(
            validate_config(&c),
            Err(format!("Caractere inválido '|' encontrado em '{}'.", name))
        );
    }
}

#[test]
fn desktop_refuses_unknown_display_manager() {
    let mut c = sample();
    c.dm = "xdm".to_string();
    assert_eq!(validate_config(&c), Ok(()));
    assert_eq!(
        validate_desktop_config(&c),
        Err("Gerenciador de login desconhecido: xdm".to_string())
    );
}

#[test]
fn gpu_is_not_checked() {
    let mut c = sample();
    c.gpu = "a;b".to_string();
    assert_eq!(validate_config(&c), Ok(()));
}
