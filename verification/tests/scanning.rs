use archism::scan::{disks_from_listing, networks_from_scan, wifi_connect_args};

#[test]
fn disks_from_lsblk_output() {
    let out = "sda\nnvme0n1\n\n  mmcblk0  \r\n";
    assert_eq!(
        disks_from_listing(out),
        vec!["/dev/sda".to_string(), "/dev/nvme0n1".to_string(), "/dev/mmcblk0".to_string()]
    );
}

#[test]
fn empty_listing_has_no_disks() {
    assert!(disks_from_listing("").is_empty());
    assert!(disks_from_listing("\n \n\t\n").is_empty());
}

#[test]
fn networks_from_iwctl_output() {
    let out = "                               Available networks\n\
--------------------------------------------------------------------------------\n\
      Network name                      Security            Signal\n\
--------------------------------------------------------------------------------\n\
  >   Casa                              psk                 ****\n\
      Cafe_Wifi                         open                ***\n\
      Casa                              psk                 **\n\
\n";
    let nets = networks_from_scan(out);
    assert_eq!(
        nets,
        vec![
            "Usa conexão com fio (Ethernet) / Pular".to_string(),
            ">".to_string(),
            "Cafe_Wifi".to_string(),
            "Casa".to_string(),
        ]
    );
}

#[test]
fn scan_never_repeats_and_starts_with_wired() {
    let out = "a b\na c\nb\nUsa\n  a\n";
    let nets = networks_from_scan(out);
    assert_eq!(nets[0], "Usa conexão com fio (Ethernet) / Pular");
    assert_eq!(nets, vec!["Usa conexão com fio (Ethernet) / Pular", "a", "b", "Usa"]);
    let empty = networks_from_scan("");
    assert_eq!(empty, vec!["Usa conexão com fio (Ethernet) / Pular".to_string()]);
}

#[test]
fn connect_arguments_with_and_without_password() {
    assert_eq!(wifi_connect_args("casa", ""), vec!["station", "wlan0", "connect", "casa"]);
    assert_eq!(
        wifi_connect_args("casa", "segredo"),
        vec!["--passphrase", "segredo", "station", "wlan0", "connect", "casa"]
    );
}
