# sing-box for Windows

A launcher and manager for the `sing-box` proxy on Windows, with its
decisions verified by Verus.

- `src/` is the verified library: config entries and their folders, the
  add / refresh / edit / delete jobs, atomic file replacement with a
  backup, settings recovery, the application state and its events, the
  child process's exit reports, automatic updates, administrator mode and
  Windows startup (`reg.exe` and `schtasks.exe` command lines and answers),
  the AppContainer loopback utility, the runtime inbound and log overrides,
  the search for a free config folder name, and the text helpers they rest
  on.
  Work that touches the disk, the network or Windows is expressed as state
  machines: a job says which operation comes next, the caller performs it
  and hands back what happened. Their laws are stated as `law_*` proof
  functions next to the code.
- `app/` is the program around it: a command-line front that reads and
  writes the runtime folders, downloads configs, runs `sing-box`, and calls
  Windows.
- `tests/` runs the library on concrete values, including the job machines
  against an in-memory disk.

Runtime layout beside the executable (the working directory in debug
builds): `core/` for `sing-box` executables, `config/<slug>/` with
`config.json` and `metadata.json` per config, `sing-box/` as the core's
working directory, and `settings.json`. `tools/` appears only when the
loopback utility is downloaded.
