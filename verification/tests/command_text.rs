use archism::command::{
    command_log_line, error_output_log_line, exit_failure_message, fatal_log_line,
    finished_log_line, io_failure_message, log_line, mirror_warning_message, progress_event,
    spawn_failure_message, wait_failure_message,
};

#[test]
fn command_lines() {
    let args = vec!["-n".to_string(), "2:0:0".to_string()];
    assert_eq!(command_log_line("sgdisk", &args), "$ sgdisk -n 2:0:0");
    assert_eq!(command_log_line("mkswap", &Vec::new()), "$ mkswap ");
    assert_eq!(finished_log_line("mount"), "✓ mount finalizado");
    assert_eq!(error_output_log_line("bad"), "[ERROR] bad");
    assert_eq!(fatal_log_line("boom"), "[FATAL ERROR] boom");
}

#[test]
fn failure_messages() {
    assert_eq!(spawn_failure_message("sgdisk", "not found"), "Falha ao executar 'sgdisk': not found");
    assert_eq!(wait_failure_message("sgdisk", "io"), "Erro aguardando processo 'sgdisk': io");
    assert_eq!(exit_failure_message("mount", Some(32)), "O comando 'mount' retornou código de erro 32");
    assert_eq!(exit_failure_message("mount", None), "O comando 'mount' retornou código de erro -1");
    assert_eq!(exit_failure_message("x", Some(-2147483648)), "O comando 'x' retornou código de erro -2147483648");
    assert_eq!(exit_failure_message("x", Some(0)), "O comando 'x' retornou código de erro 0");
    assert_eq!(mirror_warning_message("e"), "[AVISO] Reflector falhou: e. Usando lista padrão.");
    assert_eq!(io_failure_message("Falha ao criar /mnt/tmp: ", "denied"), "Falha ao criar /mnt/tmp: denied");
}

#[test]
fn desktop_records() {
    let l = log_line("texto", "ok");
    assert_eq!((l.text.as_str(), l.kind.as_str()), ("texto", "ok"));
    let p = progress_event("Gerando fstab", 70);
    assert_eq!((p.stage.as_str(), p.percent), ("Gerando fstab", 70));
}
