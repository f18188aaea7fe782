//! Simplified / Traditional Chinese conversion with OpenCC lexicons and
//! forward-maximum-matching segmentation, with the configuration, custom
//! dictionary and converter-state logic stated and proved in Verus.

pub mod text;
pub mod config;
pub mod slot;
pub mod lexicon;
pub mod dictionary;
pub mod ids;
pub mod delimiter;
pub mod fmm;
pub mod engine;
pub mod tables;
pub mod detect;
pub mod wasm;
pub mod bundled;

pub use config::{OpenccConfig, OpenccConfigWasm};
pub use dictionary::DictionaryMaxlength;
pub use engine::OpenCC;
pub use slot::{CustomDictMode, CustomDictSpec, DictSlot, WasmCustomDictSpec};
pub use tables::{CharTable, DetofuLevel, DetofuLevelWasm, TofuTable};
pub use wasm::OpenccWasm;
