# rkik (verified core)

rkik queries NTP and NTS servers and reports offset, round-trip delay,
stratum and authentication status. This crate holds its logic as a Verus
library whose functions carry `requires`/`ensures` contracts proved by Verus:

- `src/nts.rs` — NTS error kinds, their names and plugin exit codes, the
  classification of the NTS client library's errors, the decisions of an
  NTS query (handshake, time request, authentication check) and the signed
  clock offset.
- `src/csv.rs` — RFC 4180 CSV rendering of probe results, with the laws
  that an escaped field reads back unchanged and that rows of successive
  batches concatenate.
- `src/cli.rs` — which parser a command line goes to, output formats, and
  how subcommand options and stored defaults become the settings of a run.
- `src/config.rs` — stored defaults and presets and the `config` and
  `preset` subcommands.
- `src/text.rs` — decimal rendering and string helpers.

`app/` is the program around it: argument parsing with clap, network I/O
with rsntp and rkik-nts, the configuration file, printing, and the
floating-point statistics and plugin thresholds.
