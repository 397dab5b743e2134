//! Microphone capture for dictation: sample conversion, device choice,
//! the container writer and the start/stop life cycle of a recording.

pub mod capture;
pub mod channel;
pub mod device;
pub mod error;
pub mod json;
pub mod level;
pub mod naming;
pub mod sample;
pub mod session;
pub mod settings;
pub mod shell;
pub mod transcribe;
pub mod writer;
