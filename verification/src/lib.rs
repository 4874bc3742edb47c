//! Decision logic of the Murmur dictation app: runtime health reporting,
//! hotkey and transcription-client state, locating the `coli` speech
//! recognizer, reading its replies, and the tray and window behaviour.

pub mod byte_order;
pub mod text;

pub mod asr_client;
pub mod coli;
pub mod health;
pub mod hotkey;
pub mod tools;
pub mod transcribe_job;
pub mod transcription;
pub mod tray;
