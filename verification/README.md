# archism

A one-shot Arch Linux installer, with its logic verified by Verus.

`src/` is the verified library:

- `text` — trimming, searching, splitting and decimal rendering of strings,
  each stated over `Seq<char>`.
- `config` — the installation settings and the checks that keep shell
  metacharacters out of every value that reaches a command or the chroot
  script.
- `packages` — partition device names, GPU driver and desktop packages.
- `install` — the installation as an exact plan of progress reports,
  commands and file operations, for the terminal and the desktop front end.
- `command` — the log lines and error messages of running a command, and the
  decision taken after one.
- `constants` — the locales, time zones, keymaps, display managers and GPU
  vendors offered by the form.
- `state` — the screen state machine: key presses, Wi-Fi results and
  installation progress.
- `scan` — reading `lsblk` and `iwctl` output.
- `screen` — the texts shown on each screen.
- `laws` — properties proved across these functions.

`app/` is the terminal program: it runs the system tools, draws the screens
with ratatui and carries out the plan with tokio.
