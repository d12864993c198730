//! Dictum core: the verified decision logic of the Dictum speech-to-text
//! desktop app (engine admission, operation lifecycle, IPC protocol, hotkeys,
//! language and model selection).

pub mod engine_gate;
pub mod operation;
pub mod text;
pub mod ipc_protocol;
pub mod keyboard;
pub mod transcription;
pub mod dictum_config;
pub mod tray_i18n;
pub mod hf_api;
pub mod catalog;
pub mod lang_id;
pub mod cpu_check;
pub mod diagnostics;
pub mod signal_handle;
pub mod history;
pub mod paste_tx;
pub mod parakeet;
pub mod scan;
pub mod input_source;
pub mod streaming;
