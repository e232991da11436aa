# poit

Pip offline installation tool: on a machine with network access, `poit --pack <package>`
downloads a pip package with all its dependencies and packs them into `<package>.poit`
(a 7z archive) beside `<package>.poit.sha256`; on a machine without network access,
`poit --install <package>.poit` checks the archive against its checksum, unpacks it,
checks the Python version it was made for and installs it with pip from the unpacked
wheels.

Layout:

- `src/` is the verified library. `text` (splitting, trimming, decoding bytes),
  `digest` (SHA-256 checksums as lowercase hexadecimal), `names` (archive, checksum and
  configuration names, pip arguments), `version` (reading and comparing tool versions),
  `files`, `config` and `pypi` (plain data), and the two state machines `pack` and
  `install` that make every decision of packing and installing. `laws` proves what holds
  of whole runs and of a package packed on one machine and installed on another.
- `app/` is the command-line program: it parses the arguments, performs the actions the
  state machines ask for (running pip and python, reading and writing files, 7z) and
  reports back what came of them.
- `tests/` runs the library on concrete values.
