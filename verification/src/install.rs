//! The installation as a plan: the exact sequence of progress reports,
//! commands and file operations that installs the system described by an
//! [`InstallConfig`], and the decision taken after each command.
use vstd::prelude::*;
use vstd::string::*;

use crate::config::{config_check, desktop_config_check, validate_config, validate_desktop_config,
    InstallConfig, InstallConfigView};
use crate::packages::{de_package, desktop_package, gpu_package_list, gpu_packages, partition,
    partition_name, str_views};
use crate::text::{decimal, push_decimal, views};

verus! {

/// Which installer front end runs the plan; they differ in their wording
/// and in a few command arguments.
#[derive(Clone, Copy, PartialEq, Eq, Structural, Debug)]
pub enum Frontend {
    Terminal,
    Desktop,
}

/// What to do when a command of the plan fails.
#[derive(Clone, Copy, PartialEq, Eq, Structural, Debug)]
pub enum FailurePolicy {
    /// Stop the installation with the command's error.
    Abort,
    /// Report a warning and go on.
    Warn,
    /// Go on silently.
    Ignore,
}

/// One step of an installation.
pub enum InstallAction {
    /// Report the current stage and how far the installation is.
    Progress { stage: String, percent: u8 },
    /// Run `program` with `args`.
    Run { program: String, args: Vec<String>, on_failure: FailurePolicy },
    /// Create the directory `path` and its parents; on failure, stop with
    /// `failure` followed by the reason.
    CreateDir { path: String, failure: String },
    /// Write `contents` to the file `path`; on failure, stop with `failure`
    /// followed by the reason.
    WriteFile { path: String, contents: String, failure: String },
    /// Remove the file `path`, ignoring any failure.
    RemoveFile { path: String },
    /// Tell the user something, as a successful log line.
    Announce { text: String },
    /// Mark the installation as finished.
    Complete,
}

/// The mathematical value of an [`InstallAction`].
pub enum ActionView {
    Progress { stage: Seq<char>, percent: u8 },
    Run { program: Seq<char>, args: Seq<Seq<char>>, on_failure: FailurePolicy },
    CreateDir { path: Seq<char>, failure: Seq<char> },
    WriteFile { path: Seq<char>, contents: Seq<char>, failure: Seq<char> },
    RemoveFile { path: Seq<char> },
    Announce { text: Seq<char> },
    Complete,
}

impl View for InstallAction {
    type V = ActionView;

    open spec fn view(&self) -> ActionView {
        match self {
            InstallAction::Progress { stage, percent } => ActionView::Progress {
                stage: stage@,
                percent: *percent,
            },
            InstallAction::Run { program, args, on_failure } => ActionView::Run {
                program: program@,
                args: views(args@),
                on_failure: *on_failure,
            },
            InstallAction::CreateDir { path, failure } => ActionView::CreateDir {
                path: path@,
                failure: failure@,
            },
            InstallAction::WriteFile { path, contents, failure } => ActionView::WriteFile {
                path: path@,
                contents: contents@,
                failure: failure@,
            },
            InstallAction::RemoveFile { path } => ActionView::RemoveFile { path: path@ },
            InstallAction::Announce { text } => ActionView::Announce { text: text@ },
            InstallAction::Complete => ActionView::Complete,
        }
    }
}

/// The views of a sequence of actions.
pub open spec fn actions(v: Seq<InstallAction>) -> Seq<ActionView> {
    v.map_values(|a: InstallAction| a@)
}

// ---------------------------------------------------------------------
// The plan, as a specification
// ---------------------------------------------------------------------

/// The wording that a front end uses: `terminal` or `desktop`.
pub open spec fn wording(f: Frontend, terminal: Seq<char>, desktop: Seq<char>) -> Seq<char> {
    match f {
        Frontend::Terminal => terminal,
        Frontend::Desktop => desktop,
    }
}

pub open spec fn report(stage: Seq<char>, percent: u8) -> ActionView {
    ActionView::Progress { stage, percent }
}

/// A command whose failure stops the installation.
pub open spec fn command(program: Seq<char>, args: Seq<Seq<char>>) -> ActionView {
    ActionView::Run { program, args, on_failure: FailurePolicy::Abort }
}

/// Where the chroot script is written, seen from the live system.
pub open spec fn script_host_path() -> Seq<char> {
    "/mnt/tmp/archism_setup.sh"@
}

/// The script run inside the new system: clock, locale, keymap, hostname,
/// services, boot loader and the user account.
pub open spec fn chroot_script(c: InstallConfigView) -> Seq<char> {
    "#!/bin/bash\nset -euo pipefail\nln -sf /usr/share/zoneinfo/"@ + c.timezone
        + " /etc/localtime\nhwclock --systohc\nsed -i 's/^#\\("@ + c.locale
        + "\\)/\\1/' /etc/locale.gen\nlocale-gen\necho 'LANG="@ + c.locale
        + "' > /etc/locale.conf\necho 'KEYMAP="@ + c.keymap + "' > /etc/vconsole.conf\necho '"@
        + c.hostname
        + "' > /etc/hostname\nprintf '127.0.0.1 localhost\\n::1 localhost\\n127.0.1.1 "@
        + c.hostname + ".localdomain "@ + c.hostname
        + "\\n' > /etc/hosts\nsystemctl enable NetworkManager\nsystemctl enable "@ + c.dm
        + "\ngrub-install --target=x86_64-efi --efi-directory=/boot --bootloader-id=GRUB\ngrub-mkconfig -o /boot/grub/grub.cfg\nuseradd -m -G wheel -s /bin/zsh "@
        + c.username + "\necho '"@ + c.username + ":"@ + c.username + "' | chpasswd\necho '"@
        + c.username + " ALL=(ALL:ALL) ALL' > /etc/sudoers.d/"@ + c.username
        + "\nchmod 440 /etc/sudoers.d/"@ + c.username + "\n"@
}

/// Partitioning, formatting and mounting of the target disk.
pub open spec fn disk_phase(c: InstallConfigView, f: Frontend) -> Seq<ActionView> {
    let boot = partition_name(c.disk, 1);
    let root = partition_name(c.disk, 2);
    seq![
        report(wording(f, "Sincronizando relógio (NTP)"@, "Sincronizando relógio de rede (NTP)"@), 5),
        command("timedatectl"@, seq!["set-ntp"@, "true"@]),
        report(wording(f, "Criando partições GPT"@, "Criando partições no disco (GPT)"@), 10),
        command("sgdisk"@, seq!["-Z"@, c.disk]),
        command("sgdisk"@, seq!["-n"@, "1:0:+2048M"@, "-t"@, "1:ef00"@, "-c"@, "1:EFI"@, c.disk]),
        command("sgdisk"@, seq!["-n"@, "2:0:0"@, "-t"@, "2:8300"@, "-c"@, "2:ROOT"@, c.disk]),
        report(wording(f, "Formatando partições"@, "Formatando partições (FAT32 e EXT4)"@), 20),
        command("mkfs.fat"@, seq!["-F32"@, boot]),
        command("mkfs.ext4"@, seq!["-F"@, root]),
        report("Montando sistemas de arquivos"@, 28),
        command("mount"@, seq![root, "/mnt"@]),
        command("mkdir"@, seq!["-p"@, "/mnt/boot"@]),
        command("mount"@, seq![boot, "/mnt/boot"@]),
    ]
}

/// The swap file, when one is asked for.
pub open spec fn swap_phase(c: InstallConfigView) -> Seq<ActionView> {
    if c.swap_size > 0 {
        seq![
            report("Criando arquivo SWAP de "@ + decimal(c.swap_size as nat) + "GB"@, 33),
            command("fallocate"@, seq!["-l"@, decimal(c.swap_size as nat) + "G"@, "/mnt/swapfile"@]),
            command("chmod"@, seq!["600"@, "/mnt/swapfile"@]),
            command("mkswap"@, seq!["/mnt/swapfile"@]),
        ]
    } else {
        Seq::empty()
    }
}

/// The packages of the base system, before the display manager.
pub open spec fn base_packages(f: Frontend) -> Seq<Seq<char>> {
    let head = match f {
        Frontend::Terminal => seq!["/mnt"@, "--needed"@, "--noconfirm"@],
        Frontend::Desktop => seq!["/mnt"@, "--needed"@],
    };
    head + seq![
        "base"@,
        "linux"@,
        "linux-firmware"@,
        "nano"@,
        "git"@,
        "zsh"@,
        "wget"@,
        "curl"@,
        "sudo"@,
        "networkmanager"@,
        "grub"@,
        "efibootmgr"@,
        "reflector"@,
        "xorg-server"@,
    ]
}

/// The arguments of `pacstrap`: the base system, the display manager, its
/// desktop environment if it has one, and the GPU drivers.
pub open spec fn pacstrap_args(c: InstallConfigView, f: Frontend) -> Seq<Seq<char>> {
    let de = desktop_package(c.dm);
    base_packages(f).push(c.dm) + (if de.len() > 0 {
        seq![de]
    } else {
        Seq::empty()
    }) + gpu_package_list(c.gpu)
}

/// The mirror list refresh; the terminal front end warns when it fails,
/// the desktop one goes on silently.
pub open spec fn mirror_action(f: Frontend) -> ActionView {
    match f {
        Frontend::Terminal => ActionView::Run {
            program: "reflector"@,
            args: seq![
                "--latest"@,
                "20"@,
                "--protocol"@,
                "https"@,
                "--sort"@,
                "rate"@,
                "--save"@,
                "/etc/pacman.d/mirrorlist"@,
            ],
            on_failure: FailurePolicy::Warn,
        },
        Frontend::Desktop => ActionView::Run {
            program: "reflector"@,
            args: seq!["--latest"@, "10"@, "--sort"@, "rate"@, "--save"@, "/etc/pacman.d/mirrorlist"@],
            on_failure: FailurePolicy::Ignore,
        },
    }
}

/// Mirrors, the base system and the file system table.
pub open spec fn base_phase(c: InstallConfigView, f: Frontend) -> Seq<ActionView> {
    seq![
        report(wording(f, "Filtrando espelhos rápidos (Reflector)"@, "Filtrando melhores mirrors (Reflector)"@), 38),
        mirror_action(f),
        report(wording(f, "Instalando sistema base (Aguarde)"@, "Instalando sistema base do Arch (Aguarde)"@), 45),
        command("pacstrap"@, pacstrap_args(c, f)),
        report(wording(f, "Gerando tabela fstab"@, "Gerando fstab"@), 70),
        command("sh"@, seq!["-c"@, "genfstab -U /mnt > /mnt/etc/fstab"@]),
    ]
}

/// The swap file's line in the file system table, when there is one.
pub open spec fn swap_fstab_phase(c: InstallConfigView) -> Seq<ActionView> {
    if c.swap_size > 0 {
        seq![command("sh"@, seq!["-c"@, "echo '/swapfile none swap defaults 0 0' >> /mnt/etc/fstab"@])]
    } else {
        Seq::empty()
    }
}

/// Writing and running the chroot script, then removing it.
pub open spec fn chroot_phase(c: InstallConfigView, f: Frontend) -> Seq<ActionView> {
    seq![
        report(wording(f, "Escrevendo scripts chroot"@, "Escrevendo scripts de chroot"@), 75),
        ActionView::CreateDir { path: "/mnt/tmp"@, failure: "Falha ao criar /mnt/tmp: "@ },
        ActionView::WriteFile {
            path: script_host_path(),
            contents: chroot_script(c),
            failure: "Falha ao criar script de chroot: "@,
        },
        report(wording(f, "Executando configurações no chroot"@, "Executando configurações internas no chroot"@), 80),
        command("arch-chroot"@, seq!["/mnt"@, "bash"@, "/tmp/archism_setup.sh"@]),
        ActionView::RemoveFile { path: script_host_path() },
    ]
}

/// The end of the installation.
pub open spec fn finish_phase(f: Frontend) -> Seq<ActionView> {
    match f {
        Frontend::Terminal => seq![report("Instalação Concluída"@, 100), ActionView::Complete],
        Frontend::Desktop => seq![
            report("Concluído"@, 100),
            ActionView::Announce {
                text: "✓ Arch Linux instalado com sucesso! Pode reiniciar com segurança."@,
            },
        ],
    }
}

/// The whole installation of `c`.
pub open spec fn install_plan(c: InstallConfigView, f: Frontend) -> Seq<ActionView> {
    disk_phase(c, f) + swap_phase(c) + base_phase(c, f) + swap_fstab_phase(c) + chroot_phase(c, f)
        + finish_phase(f)
}

/// The check that a front end makes before installing.
pub open spec fn front_end_check(c: InstallConfigView, f: Frontend) -> Result<(), Seq<char>> {
    match f {
        Frontend::Terminal => config_check(c),
        Frontend::Desktop => desktop_config_check(c),
    }
}

// ---------------------------------------------------------------------
// Building the plan
// ---------------------------------------------------------------------

fn owned(s: &str) -> (r: String)
    ensures
        r@ == s@,
{
    String::from_str(s)
}

fn arg(args: &mut Vec<String>, s: &str)
    ensures
        views(final(args)@) == views(old(args)@).push(s@),
{
    args.push(String::from_str(s));
    assert(views(args@) =~= views(old(args)@).push(s@));
}

fn arg_string(args: &mut Vec<String>, s: String)
    ensures
        views(final(args)@) == views(old(args)@).push(s@),
{
    args.push(s);
    assert(views(args@) =~= views(old(args)@).push(s@));
}

fn no_args() -> (r: Vec<String>)
    ensures
        views(r@) == Seq::<Seq<char>>::empty(),
{
    let r: Vec<String> = Vec::new();
    assert(views(r@) =~= Seq::<Seq<char>>::empty());
    r
}

fn add_action(plan: &mut Vec<InstallAction>, a: InstallAction)
    ensures
        actions(final(plan)@) == actions(old(plan)@).push(a@),
{
    plan.push(a);
    assert(actions(plan@) =~= actions(old(plan)@).push(a@));
}

fn add_report(plan: &mut Vec<InstallAction>, stage: &str, percent: u8)
    ensures
        actions(final(plan)@) == actions(old(plan)@).push(report(stage@, percent)),
{
    add_action(plan, InstallAction::Progress { stage: owned(stage), percent });
}

fn add_command(plan: &mut Vec<InstallAction>, program: &str, args: Vec<String>)
    ensures
        actions(final(plan)@) == actions(old(plan)@).push(command(program@, views(args@))),
{
    add_action(plan, InstallAction::Run { program: owned(program), args, on_failure: FailurePolicy::Abort });
}

fn pick(f: Frontend, terminal: &'static str, desktop: &'static str) -> (r: &'static str)
    ensures
        r@ == wording(f, terminal@, desktop@),
{
    match f {
        Frontend::Terminal => terminal,
        Frontend::Desktop => desktop,
    }
}

/// The chroot script for `cfg`.
pub fn chroot_script_text(cfg: &InstallConfig) -> (r: String)
    ensures
        r@ == chroot_script(cfg@),
{
    let mut s = owned("#!/bin/bash\nset -euo pipefail\nln -sf /usr/share/zoneinfo/");
    s.append(cfg.timezone.as_str());
    s.append(" /etc/localtime\nhwclock --systohc\nsed -i 's/^#\\(");
    s.append(cfg.locale.as_str());
    s.append("\\)/\\1/' /etc/locale.gen\nlocale-gen\necho 'LANG=");
    s.append(cfg.locale.as_str());
    s.append("' > /etc/locale.conf\necho 'KEYMAP=");
    s.append(cfg.keymap.as_str());
    s.append("' > /etc/vconsole.conf\necho '");
    s.append(cfg.hostname.as_str());
    s.append("' > /etc/hostname\nprintf '127.0.0.1 localhost\\n::1 localhost\\n127.0.1.1 ");
    s.append(cfg.hostname.as_str());
    s.append(".localdomain ");
    s.append(cfg.hostname.as_str());
    s.append("\\n' > /etc/hosts\nsystemctl enable NetworkManager\nsystemctl enable ");
    s.append(cfg.dm.as_str());
    s.append(
        "\ngrub-install --target=x86_64-efi --efi-directory=/boot --bootloader-id=GRUB\ngrub-mkconfig -o /boot/grub/grub.cfg\nuseradd -m -G wheel -s /bin/zsh ",
    );
    s.append(cfg.username.as_str());
    s.append("\necho '");
    s.append(cfg.username.as_str());
    s.append(":");
    s.append(cfg.username.as_str());
    s.append("' | chpasswd\necho '");
    s.append(cfg.username.as_str());
    s.append(" ALL=(ALL:ALL) ALL' > /etc/sudoers.d/");
    s.append(cfg.username.as_str());
    s.append("\nchmod 440 /etc/sudoers.d/");
    s.append(cfg.username.as_str());
    s.append("\n");
    s
}

fn push_disk_phase(plan: &mut Vec<InstallAction>, cfg: &InstallConfig, f: Frontend)
    ensures
        actions(final(plan)@) == actions(old(plan)@) + disk_phase(cfg@, f),
{
    let boot = partition(cfg.disk.as_str(), 1);
    let root = partition(cfg.disk.as_str(), 2);
    let ghost start = actions(plan@);

    add_report(plan, pick(f, "Sincronizando relógio (NTP)", "Sincronizando relógio de rede (NTP)"), 5);
    let mut a = no_args();
    arg(&mut a, "set-ntp");
    arg(&mut a, "true");
    assert(views(a@) =~= seq!["set-ntp"@, "true"@]);
    add_command(plan, "timedatectl", a);

    add_report(plan, pick(f, "Criando partições GPT", "Criando partições no disco (GPT)"), 10);
    let mut a = no_args();
    arg(&mut a, "-Z");
    arg_string(&mut a, cfg.disk.clone());
    assert(views(a@) =~= seq!["-Z"@, cfg@.disk]);
    add_command(plan, "sgdisk", a);
    let mut a = no_args();
    arg(&mut a, "-n");
    arg(&mut a, "1:0:+2048M");
    arg(&mut a, "-t");
    arg(&mut a, "1:ef00");
    arg(&mut a, "-c");
    arg(&mut a, "1:EFI");
    arg_string(&mut a, cfg.disk.clone());
    assert(views(a@) =~= seq!["-n"@, "1:0:+2048M"@, "-t"@, "1:ef00"@, "-c"@, "1:EFI"@, cfg@.disk]);
    add_command(plan, "sgdisk", a);
    let mut a = no_args();
    arg(&mut a, "-n");
    arg(&mut a, "2:0:0");
    arg(&mut a, "-t");
    arg(&mut a, "2:8300");
    arg(&mut a, "-c");
    arg(&mut a, "2:ROOT");
    arg_string(&mut a, cfg.disk.clone());
    assert(views(a@) =~= seq!["-n"@, "2:0:0"@, "-t"@, "2:8300"@, "-c"@, "2:ROOT"@, cfg@.disk]);
    add_command(plan, "sgdisk", a);

    add_report(plan, pick(f, "Formatando partições", "Formatando partições (FAT32 e EXT4)"), 20);
    let mut a = no_args();
    arg(&mut a, "-F32");
    arg_string(&mut a, boot.clone());
    assert(views(a@) =~= seq!["-F32"@, partition_name(cfg@.disk, 1)]);
    add_command(plan, "mkfs.fat", a);
    let mut a = no_args();
    arg(&mut a, "-F");
    arg_string(&mut a, root.clone());
    assert(views(a@) =~= seq!["-F"@, partition_name(cfg@.disk, 2)]);
    add_command(plan, "mkfs.ext4", a);

    add_report(plan, "Montando sistemas de arquivos", 28);
    let mut a = no_args();
    arg_string(&mut a, root);
    arg(&mut a, "/mnt");
    assert(views(a@) =~= seq![partition_name(cfg@.disk, 2), "/mnt"@]);
    add_command(plan, "mount", a);
    let mut a = no_args();
    arg(&mut a, "-p");
    arg(&mut a, "/mnt/boot");
    assert(views(a@) =~= seq!["-p"@, "/mnt/boot"@]);
    add_command(plan, "mkdir", a);
    let mut a = no_args();
    arg_string(&mut a, boot);
    arg(&mut a, "/mnt/boot");
    assert(views(a@) =~= seq![partition_name(cfg@.disk, 1), "/mnt/boot"@]);
    add_command(plan, "mount", a);

    assert(actions(plan@) =~= start + disk_phase(cfg@, f));
}

fn push_swap_phase(plan: &mut Vec<InstallAction>, cfg: &InstallConfig)
    ensures
        actions(final(plan)@) == actions(old(plan)@) + swap_phase(cfg@),
{
    let ghost start = actions(plan@);
    if cfg.swap_size > 0 {
        let mut stage = owned("Criando arquivo SWAP de ");
        push_decimal(&mut stage, cfg.swap_size);
        stage.append("GB");
        add_action(plan, InstallAction::Progress { stage, percent: 33 });
        let mut size = String::new();
        push_decimal(&mut size, cfg.swap_size);
        size.append("G");
        assert(size@ =~= decimal(cfg.swap_size as nat) + "G"@);
        let mut a = no_args();
        arg(&mut a, "-l");
        arg_string(&mut a, size);
        arg(&mut a, "/mnt/swapfile");
        assert(views(a@) =~= seq!["-l"@, size@, "/mnt/swapfile"@]);
        add_command(plan, "fallocate", a);
        let mut a = no_args();
        arg(&mut a, "600");
        arg(&mut a, "/mnt/swapfile");
        assert(views(a@) =~= seq!["600"@, "/mnt/swapfile"@]);
        add_command(plan, "chmod", a);
        let mut a = no_args();
        arg(&mut a, "/mnt/swapfile");
        assert(views(a@) =~= seq!["/mnt/swapfile"@]);
        add_command(plan, "mkswap", a);
    }
    assert(actions(plan@) =~= start + swap_phase(cfg@));
}

fn pacstrap_arguments(cfg: &InstallConfig, f: Frontend) -> (r: Vec<String>)
    ensures
        views(r@) == pacstrap_args(cfg@, f),
{
    let mut a = no_args();
    arg(&mut a, "/mnt");
    arg(&mut a, "--needed");
    if f == Frontend::Terminal {
        arg(&mut a, "--noconfirm");
    }
    let ghost head = views(a@);
    arg(&mut a, "base");
    arg(&mut a, "linux");
    arg(&mut a, "linux-firmware");
    arg(&mut a, "nano");
    arg(&mut a, "git");
    arg(&mut a, "zsh");
    arg(&mut a, "wget");
    arg(&mut a, "curl");
    arg(&mut a, "sudo");
    arg(&mut a, "networkmanager");
    arg(&mut a, "grub");
    arg(&mut a, "efibootmgr");
    arg(&mut a, "reflector");
    arg(&mut a, "xorg-server");
    assert(views(a@) =~= base_packages(f));
    arg_string(&mut a, cfg.dm.clone());
    let ghost with_dm = views(a@);
    let de = de_package(cfg.dm.as_str());
    if !de.is_empty() {
        arg(&mut a, de);
    }
    let ghost with_de = views(a@);
    let gpu = gpu_packages(cfg.gpu.as_str());
    let mut i: usize = 0;
    while i < gpu.len()
        invariant
            i <= gpu@.len(),
            views(a@) == with_de + str_views(gpu@).take(i as int),
        decreases gpu.len() - i,
    {
        arg(&mut a, gpu[i]);
        assert(str_views(gpu@).take(i + 1) =~= str_views(gpu@).take(i as int).push(gpu@[i as int]@));
        i = i + 1;
    }
    assert(str_views(gpu@).take(gpu@.len() as int) =~= str_views(gpu@));
    assert(views(a@) =~= pacstrap_args(cfg@, f));
    a
}

fn mirror_command(f: Frontend) -> (r: InstallAction)
    ensures
        r@ == mirror_action(f),
{
    let mut a = no_args();
    arg(&mut a, "--latest");
    match f {
        Frontend::Terminal => {
            arg(&mut a, "20");
            arg(&mut a, "--protocol");
            arg(&mut a, "https");
            arg(&mut a, "--sort");
            arg(&mut a, "rate");
            arg(&mut a, "--save");
            arg(&mut a, "/etc/pacman.d/mirrorlist");
            assert(views(a@) =~= seq!["--latest"@, "20"@, "--protocol"@, "https"@, "--sort"@, "rate"@, "--save"@, "/etc/pacman.d/mirrorlist"@]);
            InstallAction::Run { program: owned("reflector"), args: a, on_failure: FailurePolicy::Warn }
        },
        Frontend::Desktop => {
            arg(&mut a, "10");
            arg(&mut a, "--sort");
            arg(&mut a, "rate");
            arg(&mut a, "--save");
            arg(&mut a, "/etc/pacman.d/mirrorlist");
            assert(views(a@) =~= seq!["--latest"@, "10"@, "--sort"@, "rate"@, "--save"@, "/etc/pacman.d/mirrorlist"@]);
            InstallAction::Run {
                program: owned("reflector"),
                args: a,
                on_failure: FailurePolicy::Ignore,
            }
        },
    }
}

fn push_base_phase(plan: &mut Vec<InstallAction>, cfg: &InstallConfig, f: Frontend)
    ensures
        actions(final(plan)@) == actions(old(plan)@) + base_phase(cfg@, f),
{
    let ghost start = actions(plan@);
    add_report(plan, pick(f, "Filtrando espelhos rápidos (Reflector)", "Filtrando melhores mirrors (Reflector)"), 38);
    add_action(plan, mirror_command(f));
    add_report(plan, pick(f, "Instalando sistema base (Aguarde)", "Instalando sistema base do Arch (Aguarde)"), 45);
    add_command(plan, "pacstrap", pacstrap_arguments(cfg, f));
    add_report(plan, pick(f, "Gerando tabela fstab", "Gerando fstab"), 70);
    let mut a = no_args();
    arg(&mut a, "-c");
    arg(&mut a, "genfstab -U /mnt > /mnt/etc/fstab");
    assert(views(a@) =~= seq!["-c"@, "genfstab -U /mnt > /mnt/etc/fstab"@]);
    add_command(plan, "sh", a);
    assert(actions(plan@) =~= start + base_phase(cfg@, f));
}

fn push_swap_fstab_phase(plan: &mut Vec<InstallAction>, cfg: &InstallConfig)
    ensures
        actions(final(plan)@) == actions(old(plan)@) + swap_fstab_phase(cfg@),
{
    let ghost start = actions(plan@);
    if cfg.swap_size > 0 {
        let mut a = no_args();
        arg(&mut a, "-c");
        arg(&mut a, "echo '/swapfile none swap defaults 0 0' >> /mnt/etc/fstab");
        assert(views(a@) =~= seq!["-c"@, "echo '/swapfile none swap defaults 0 0' >> /mnt/etc/fstab"@]);
        add_command(plan, "sh", a);
    }
    assert(actions(plan@) =~= start + swap_fstab_phase(cfg@));
}

fn push_chroot_phase(plan: &mut Vec<InstallAction>, cfg: &InstallConfig, f: Frontend)
    ensures
        actions(final(plan)@) == actions(old(plan)@) + chroot_phase(cfg@, f),
{
    let ghost start = actions(plan@);
    add_report(plan, pick(f, "Escrevendo scripts chroot", "Escrevendo scripts de chroot"), 75);
    add_action(plan, InstallAction::CreateDir { path: owned("/mnt/tmp"), failure: owned("Falha ao criar /mnt/tmp: ") });
    add_action(
        plan,
        InstallAction::WriteFile {
            path: owned("/mnt/tmp/archism_setup.sh"),
            contents: chroot_script_text(cfg),
            failure: owned("Falha ao criar script de chroot: "),
        },
    );
    add_report(plan, pick(f, "Executando configurações no chroot", "Executando configurações internas no chroot"), 80);
    let mut a = no_args();
    arg(&mut a, "/mnt");
    arg(&mut a, "bash");
    arg(&mut a, "/tmp/archism_setup.sh");
    assert(views(a@) =~= seq!["/mnt"@, "bash"@, "/tmp/archism_setup.sh"@]);
    add_command(plan, "arch-chroot", a);
    add_action(plan, InstallAction::RemoveFile { path: owned("/mnt/tmp/archism_setup.sh") });
    assert(actions(plan@) =~= start + chroot_phase(cfg@, f));
}

fn push_finish_phase(plan: &mut Vec<InstallAction>, f: Frontend)
    ensures
        actions(final(plan)@) == actions(old(plan)@) + finish_phase(f),
{
    let ghost start = actions(plan@);
    match f {
        Frontend::Terminal => {
            add_report(plan, "Instalação Concluída", 100);
            add_action(plan, InstallAction::Complete);
        },
        Frontend::Desktop => {
            add_report(plan, "Concluído", 100);
            add_action(
                plan,
                InstallAction::Announce {
                    text: owned("✓ Arch Linux instalado com sucesso! Pode reiniciar com segurança."),
                },
            );
        },
    }
    assert(actions(plan@) =~= start + finish_phase(f));
}

/// The steps that install `cfg` (already checked).
pub fn plan_steps(cfg: &InstallConfig, f: Frontend) -> (r: Vec<InstallAction>)
    ensures
        actions(r@) == install_plan(cfg@, f),
{
    let mut plan: Vec<InstallAction> = Vec::new();
    assert(actions(plan@) =~= Seq::<ActionView>::empty());
    push_disk_phase(&mut plan, cfg, f);
    push_swap_phase(&mut plan, cfg);
    push_base_phase(&mut plan, cfg, f);
    push_swap_fstab_phase(&mut plan, cfg);
    push_chroot_phase(&mut plan, cfg, f);
    push_finish_phase(&mut plan, f);
    assert(actions(plan@) =~= install_plan(cfg@, f));
    plan
}

/// Checks `cfg` as the front end `f` does and, when it passes, gives the
/// steps that install it; otherwise the check's error.
pub fn installation_plan(cfg: &InstallConfig, f: Frontend) -> (r: Result<Vec<InstallAction>, String>)
    ensures
        r is Ok <==> front_end_check(cfg@, f) is Ok,
        r matches Ok(p) ==> actions(p@) == install_plan(cfg@, f),
        r matches Err(e) ==> front_end_check(cfg@, f) == Err::<(), Seq<char>>(e@),
{
    let checked = match f {
        Frontend::Terminal => validate_config(cfg),
        Frontend::Desktop => validate_desktop_config(cfg),
    };
    match checked {
        Err(e) => Err(e),
        Ok(()) => Ok(plan_steps(cfg, f)),
    }
}

} // verus!
