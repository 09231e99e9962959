# linux_init

A setup wizard for Linux development machines (Arch, Debian/Ubuntu, Fedora):
zsh and Oh My Zsh, Docker, SSH keys and server, common tools, Vim, nvm, the
Chinese locale with fonts and input method, and package mirrors.

- `src/` is the library, verified with Verus. It decides everything: which
  commands to run on which distribution, how configuration files are
  edited, what each key does in the wizard, and how a batch run is
  reported. Each public function has a contract; the laws (read-back of
  edits, edits applied at most once, key handling keeping the cursors in
  range, and so on) are proof functions next to the code they speak of.
- `app/` is the program: the terminal front end (ratatui, crossterm), the
  `--execute <json>` batch mode, and running the commands and file
  operations the library plans.
- `tests/` runs the library on concrete inputs.
