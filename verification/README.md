# decktricks

Tools for making life easier on the Steam Deck: install, run, kill, update and
add to Steam a catalogue of "tricks" (Flatpak applications, Decky, EmuDeck,
GeForce NOW, plain commands and systemd units).

The library in `src/` is written in Verus. Its functions carry contracts that
Verus proves, except for a few small wrappers around the standard library and
the outside crates (hashing, Steam's shortcut format, the `$PATH` lookup, URL
encoding, the clock), whose contracts are believed as their documentation
states them:

- `tricks_config`, `actions`, `command`, `executor`: the catalogue, the actions,
  and what running a command comes to.
- `providers`: for each kind of trick, which actions are possible given what the
  system shows, and what taking one means (the commands to run).
- `tricks_status`, `gui`, `gui_logs`: what a graphical interface shows and decides.
- `add_to_steam`: Steam shortcuts for tricks and for decktricks itself.
- `update`: checking an installation against its list of file hashes.
- `text`, `utils`, `system_command`, `logging`, `errors`: the supporting pieces.

`app/` is the command-line program around the library: it reads the
configuration and the environment, runs the system commands that the library
plans, downloads files and writes Steam's shortcut files.

`tests/` holds the tests, run against the compiled library.
