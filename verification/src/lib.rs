//! Morse-code keying, timing and decoding engine.
//!
//! One timing model, derived from a words-per-minute setting, feeds
//! three pieces: the encoder turns text into a timed tone sequence,
//! the decoder turns timed elements back into text, and the iambic
//! keyer state machine turns two live paddle contacts into correctly
//! timed elements.  Around them sit the character-stream synthesizer
//! for device-side decoders and the scripted QSO partner that decides
//! what the simulated station sends, and when.

pub mod decoder;
pub mod encoder;
pub mod keyer;
pub mod qso;
pub mod rng;
pub mod roundtrip;
pub mod text;
pub mod timing;
pub mod winkeyer;
