# anomaly_launcher

The logic of a launcher for the game S.T.A.L.K.E.R. Anomaly, with machine-checked proofs.

- `src/` — the verified library:
  - `config` — settings, their defaults, labels and the game's command line;
  - `localization` — interface texts chosen by the system locale;
  - `checksum` — the MD5 checksum listing, digest comparison and reports;
  - `user_ltx` — the default `user.ltx` and writing the window mode into it;
  - `files` — the file moves of the sound workaround and of the `user.ltx` reset;
  - `system` — game process names, CPU affinity mask, AVX flag, addon scan, wide paths;
  - `text` — lines, whitespace tokens, joining, prefixes and suffixes.
- `app/` — the window (eframe), file and process I/O, the settings file (serde/toml).
- `tests/` — tests of the library on concrete values.
