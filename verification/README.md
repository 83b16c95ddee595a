# krunvm

A manager for lightweight microVMs that run OCI images on libkrun, with its
decision-making written in Verus and proved against its contracts.

- `src/` is the verified library: parsing of MAC addresses, port and volume
  pairs and capability names; shell quoting; the balloon protocol; the
  buildah arguments; and, for each subcommand, the function that decides
  what happens (the new configuration of `changevm`, the settings of
  `create` and where it is stored, the libkrun setup of `start` with the
  balloon's initial target and what the guest launches, the socket traffic of `balloon`).
  Laws that relate these functions are public proof functions beside them
  (`law_*`).
- `app/` is the command-line front end: clap argument parsing, the confy
  configuration file, and the buildah, file, libkrun and socket I/O that
  carries out the library's plans.
- `tests/` runs the library on concrete inputs, with the real outside crates.
