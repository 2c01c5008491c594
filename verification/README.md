# qingjian_windows

The decision logic of the Qingjian (字在) input method's Windows shell, written in Verus and
proved against its contracts.

- `src/` — the verified library: candidate-window and status-bar placement, the text
  service's reconnect back-off and protocol-mismatch latch, key routing, candidate frames
  and footers, number formatting of usage counters, logo recolouring (with PNG decoding
  through the `png` crate behind one trusted wrapper, and a ring test that is exact for
  images of any size thanks to a small verified wide-integer module), the mode icon's
  pixels, theme following, configuration hot reloading, and what each settings message
  writes.
  Laws that span several calls are public proof functions named `lemma_*`.
- `tests/` — tests on concrete values, run with the real `png` crate.
- `app/` — the unverified edges: clocks, registry reads, writing `config.toml` with
  `toml_edit`, opening files, spawning PowerShell for log export, the connection driver and the
  floating-point gradient of the logo.
