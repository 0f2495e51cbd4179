# ntl_core

The core of the Nyuchi Transfer Layer (NTL): signals, synapses, activation
thresholds and propagation, written in Verus with contracts that the verifier
proves.

- `src/` — the verified library. Weights, thresholds and scores are IEEE-754
  binary32 values held as their bit patterns (`binary32` decides comparisons
  and clamping on them exactly); the library makes every decision and keeps
  every count.
- `app/` — the `ntl` command-line program and the parts that stay outside the
  verifier: binary32 arithmetic (scoring, strengthening, decay, potentials,
  random draws), TOML configuration files, JSON payload values and error
  messages.
- `tests/` — tests of the library.
