//! Verified core of a real-time captioning engine: the streaming audio
//! window that decides when and on what audio a speech model runs, the
//! status segments sent to the user interface, the choice of decoding
//! language, the mel filter bank selection and decoding, and the text
//! statistics used by the interface.

pub mod capture;
pub mod language;
pub mod mel;
pub mod report;
pub mod segment;
pub mod setup;
pub mod text_util;
