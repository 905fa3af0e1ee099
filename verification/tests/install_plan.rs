use archism::command::{after_command, Verdict};
use archism::config::InstallConfig;
use archism::install::{
    chroot_script_text, installation_plan, FailurePolicy, Frontend, InstallAction,
};
use archism::packages::{de_package, gpu_packages, partition};

fn sample(disk: &str, swap: u32) -> InstallConfig {
    InstallConfig {
        disk: disk.to_string(),
        hostname: "archbox".to_string(),
        username: "arthur".to_string(),
        locale: "en_US.UTF-8".to_string(),
        timezone: "America/Sao_Paulo".to_string(),
        keymap: "br-abnt2".to_string(),
        dm: "lightdm".to_string(),
        gpu: "nvidia".to_string(),
        swap_size: swap,
    }
}

fn describe(a: &InstallAction) -> String {
    match a {
        InstallAction::Progress { stage, percent } => format!("progress {} {}", percent, stage),
        InstallAction::Run { program, args, on_failure } => {
            format!("run {:?} {} {}", on_failure, program, args.join(" "))
        }
        InstallAction::CreateDir { path, failure } => format!("mkdir {} [{}]", path, failure),
        InstallAction::WriteFile { path, failure, .. } => format!("write {} [{}]", path, failure),
        InstallAction::RemoveFile { path } => format!("remove {}", path),
        InstallAction::Announce { text } => format!("announce {}", text),
        InstallAction::Complete => "complete".to_string(),
    }
}

#[test]
fn partition_of_sata_disk() {
    assert_eq!(partition("/dev/sda", 1), "/dev/sda1");
    assert_eq!(partition("/dev/sda", 2), "/dev/sda2");
}

#[test]
fn partition_of_nvme_and_mmc_disks() {
    assert_eq!(partition("/dev/nvme0n1", 1), "/dev/nvme0n1p1");
    assert_eq!(partition("/dev/mmcblk0", 2), "/dev/mmcblk0p2");
    assert_eq!(partition("/dev/vda", 255), "/dev/vda255");
    assert_eq!(partition("/dev/vda", 0), "/dev/vda0");
}

#[test]
fn boot_and_root_partitions_differ() {
    for disk in ["/dev/sda", "/dev/nvme0n1", "/dev/mmcblk1", ""] {
        let boot = partition(disk, 1);
        let root = partition(disk, 2);
        assert_ne!(boot, root);
        assert!(boot.starts_with(disk) && root.starts_with(disk));
    }
}

#[test]
fn gpu_packages_per_vendor() {
    assert_eq!(gpu_packages("nvidia"), &["nvidia", "nvidia-utils", "nvidia-settings"][..]);
    assert_eq!(gpu_packages("amd"), &["mesa", "vulkan-radeon", "libva-mesa-driver"][..]);
    assert_eq!(gpu_packages("intel"), &["mesa", "intel-media-driver", "vulkan-intel"][..]);
    assert!(gpu_packages("none").is_empty());
    assert!(gpu_packages("NVIDIA").is_empty());
}

#[test]
fn desktop_package_per_display_manager() {
    assert_eq!(de_package("gdm"), "gnome");
    assert_eq!(de_package("sddm"), "plasma-meta");
    assert_eq!(de_package("lightdm"), "xfce4");
    assert_eq!(de_package("ly"), "");
}

#[test]
fn terminal_plan_with_swap() {
    let plan = installation_plan(&sample("/dev/nvme0n1", 8), Frontend::Terminal).unwrap();
    let got: Vec<String> = plan.iter().map(describe).collect();
    let expected = vec![
        "progress 5 Sincronizando relógio (NTP)",
        "run Abort timedatectl set-ntp true",
        "progress 10 Criando partições GPT",
        "run Abort sgdisk -Z /dev/nvme0n1",
        "run Abort sgdisk -n 1:0:+2048M -t 1:ef00 -c 1:EFI /dev/nvme0n1",
        "run Abort sgdisk -n 2:0:0 -t 2:8300 -c 2:ROOT /dev/nvme0n1",
        "progress 20 Formatando partições",
        "run Abort mkfs.fat -F32 /dev/nvme0n1p1",
        "run Abort mkfs.ext4 -F /dev/nvme0n1p2",
        "progress 28 Montando sistemas de arquivos",
        "run Abort mount /dev/nvme0n1p2 /mnt",
        "run Abort mkdir -p /mnt/boot",
        "run Abort mount /dev/nvme0n1p1 /mnt/boot",
        "progress 33 Criando arquivo SWAP de 8GB",
        "run Abort fallocate -l 8G /mnt/swapfile",
        "run Abort chmod 600 /mnt/swapfile",
        "run Abort mkswap /mnt/swapfile",
        "progress 38 Filtrando espelhos rápidos (Reflector)",
        "run Warn reflector --latest 20 --protocol https --sort rate --save /etc/pacman.d/mirrorlist",
        "progress 45 Instalando sistema base (Aguarde)",
        "run Abort pacstrap /mnt --needed --noconfirm base linux linux-firmware nano git zsh wget curl sudo networkmanager grub efibootmgr reflector xorg-server lightdm xfce4 nvidia nvidia-utils nvidia-settings",
        "progress 70 Gerando tabela fstab",
        "run Abort sh -c genfstab -U /mnt > /mnt/etc/fstab",
        "run Abort sh -c echo '/swapfile none swap defaults 0 0' >> /mnt/etc/fstab",
        "progress 75 Escrevendo scripts chroot",
        "mkdir /mnt/tmp [Falha ao criar /mnt/tmp: ]",
        "write /mnt/tmp/archism_setup.sh [Falha ao criar script de chroot: ]",
        "progress 80 Executando configurações no chroot",
        "run Abort arch-chroot /mnt bash /tmp/archism_setup.sh",
        "remove /mnt/tmp/archism_setup.sh",
        "progress 100 Instalação Concluída",
        "complete",
    ];
    assert_eq!(got, expected);
}

#[test]
fn terminal_plan_without_swap() {
    let mut c = sample("/dev/sda", 0);
    c.gpu = "other".to_string();
    c.dm = "ly".to_string();
    let plan = installation_plan(&c, Frontend::Terminal).unwrap();
    let got: Vec<String> = plan.iter().map(describe).collect();
    assert_eq!(got.len(), 27);
    assert!(!got.iter().any(|l| l.contains("swap")));
    assert!(got.contains(&"run Abort mkfs.fat -F32 /dev/sda1".to_string()));
    assert!(got.contains(&"run Abort pacstrap /mnt --needed --noconfirm base linux linux-firmware nano git zsh wget curl sudo networkmanager grub efibootmgr reflector xorg-server ly".to_string()));
}

#[test]
fn desktop_plan_differs_in_wording_and_mirrors() {
    let plan = installation_plan(&sample("/dev/sda", 4), Frontend::Desktop).unwrap();
    let got: Vec<String> = plan.iter().map(describe).collect();
    assert_eq!(got[0], "progress 5 Sincronizando relógio de rede (NTP)");
    assert!(got.contains(&"run Ignore reflector --latest 10 --sort rate --save /etc/pacman.d/mirrorlist".to_string()));
    assert!(got.contains(&"run Abort pacstrap /mnt --needed base linux linux-firmware nano git zsh wget curl sudo networkmanager grub efibootmgr reflector xorg-server lightdm xfce4 nvidia nvidia-utils nvidia-settings".to_string()));
    assert_eq!(got[got.len() - 2], "progress 100 Concluído");
    assert_eq!(
        got[got.len() - 1],
        "announce ✓ Arch Linux instalado com sucesso! Pode reiniciar com segurança."
    );
}

#[test]
fn invalid_config_gives_no_plan() {
    let mut c = sample("/dev/sda", 8);
    c.hostname = "box`reboot`".to_string();
    match installation_plan(&c, Frontend::Terminal) {
        Err(e) => assert_eq!(e, "Caractere inválido '`' encontrado em 'hostname'."),
        Ok(_) => panic!("a plan for an unsafe host name"),
    }
    let mut c = sample("/dev/sda", 8);
    c.dm = "xdm".to_string();
    assert!(installation_plan(&c, Frontend::Terminal).is_ok());
    match installation_plan(&c, Frontend::Desktop) {
        Err(e) => assert_eq!(e, "Gerenciador de login desconhecido: xdm"),
        Ok(_) => panic!("a desktop plan for an unknown display manager"),
    }
}

#[test]
fn progress_never_goes_back() {
    for swap in [0, 1, 64] {
        for f in [Frontend::Terminal, Frontend::Desktop] {
            let plan = installation_plan(&sample("/dev/sda", swap), f).unwrap();
            let percents: Vec<u8> = plan
                .iter()
                .filter_map(|a| match a {
                    InstallAction::Progress { percent, .. } => Some(*percent),
                    _ => None,
                })
                .collect();
            assert!(percents.windows(2).all(|w| w[0] <= w[1]));
            assert_eq!(*percents.last().unwrap(), 100);
            assert!(matches!(plan[plan.len() - 2], InstallAction::Progress { percent: 100, .. }));
        }
    }
}

#[test]
fn chroot_script_text_is_exact() {
    let script = chroot_script_text(&sample("/dev/sda", 8));
    let expected = "#!/bin/bash\nset -euo pipefail\n\
ln -sf /usr/share/zoneinfo/America/Sao_Paulo /etc/localtime\n\
hwclock --systohc\n\
sed -i 's/^#\\(en_US.UTF-8\\)/\\1/' /etc/locale.gen\n\
locale-gen\n\
echo 'LANG=en_US.UTF-8' > /etc/locale.conf\n\
echo 'KEYMAP=br-abnt2' > /etc/vconsole.conf\n\
echo 'archbox' > /etc/hostname\n\
printf '127.0.0.1 localhost\\n::1 localhost\\n127.0.1.1 archbox.localdomain archbox\\n' > /etc/hosts\n\
systemctl enable NetworkManager\n\
systemctl enable lightdm\n\
grub-install --target=x86_64-efi --efi-directory=/boot --bootloader-id=GRUB\n\
grub-mkconfig -o /boot/grub/grub.cfg\n\
useradd -m -G wheel -s /bin/zsh arthur\n\
echo 'arthur:arthur' | chpasswd\n\
echo 'arthur ALL=(ALL:ALL) ALL' > /etc/sudoers.d/arthur\n\
chmod 440 /etc/sudoers.d/arthur\n";
    assert_eq!(script, expected);
    let plan = installation_plan(&sample("/dev/sda", 8), Frontend::Terminal).unwrap();
    let written = plan.iter().find_map(|a| match a {
        InstallAction::WriteFile { contents, .. } => Some(contents.clone()),
        _ => None,
    });
    assert_eq!(written, Some(expected.to_string()));
}

#[test]
fn verdict_after_each_policy() {
    assert!(matches!(after_command(FailurePolicy::Abort, Ok(())), Verdict::Continue));
    assert!(matches!(after_command(FailurePolicy::Warn, Ok(())), Verdict::Continue));
    match after_command(FailurePolicy::Abort, Err("boom".to_string())) {
        Verdict::Abort(e) => assert_eq!(e, "boom"),
        _ => panic!("abort expected"),
    }
    match after_command(FailurePolicy::Warn, Err("boom".to_string())) {
        Verdict::Warn(w) => assert_eq!(w, "[AVISO] Reflector falhou: boom. Usando lista padrão."),
        _ => panic!("warning expected"),
    }
    assert!(matches!(
        after_command(FailurePolicy::Ignore, Err("boom".to_string())),
        Verdict::Continue
    ));
}
