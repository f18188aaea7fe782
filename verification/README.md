# opencc-fmmseg-wasm

Simplified / Traditional Chinese conversion with OpenCC-style dictionaries and
forward maximum matching (FMM), written in Verus: every function of the
library carries a contract that Verus proves, except `text::push_char`, a
trusted wrapper of `String::push`.

## Layout

- `src/config.rs` – the twenty conversion configurations, their names and IDs.
- `src/slot.rs` – dictionary slots, custom dictionary modes and the checked
  conversion of caller-supplied custom dictionary specifications.
- `src/lexicon.rs`, `src/dictionary.rs` – one dictionary per slot, and how
  `Append` / `Override` specifications change them.
- `src/ids.rs`, `src/delimiter.rs`, `src/fmm.rs` – segmentation at delimiters
  and complete Ideographic Description Sequences, and maximum matching.
- `src/engine.rs` – the dictionary rounds of each configuration and the
  conversion engine.
- `src/tables.rs`, `src/detect.rs` – DeToFu fallbacks, compatibility
  normalization and Traditional / Simplified detection.
- `src/wasm.rs` – the converter object that JavaScript callers hold.
- `src/bundled.rs`, `src/bundled/` – the bundled OpenCC lexicons (one text
  per slot) and character tables, and their verified loaders.
- `app/lib.rs` – the `wasm-bindgen` bindings and the serde form of custom
  dictionary specifications.

## Data

The bundled lexicons are the OpenCC dictionaries, stored as
`source<TAB>replacement` lines (first candidate only); the bundled tables are
the CJK Compatibility Ideograph, extended Unicode compatibility and DeToFu
tables. `OpenCC::new_embedded` and `OpenccWasm::new` load them, and their
contracts state the loaded maps as the parse of that text.
