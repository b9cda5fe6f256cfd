//! The core of a native audio capture module.
//!
//! System audio and microphones are captured on threads of their own: a device
//! callback fills a ring with samples, and a signal-processing loop drains it, cuts
//! frames, asks a silence suppressor what to do with each and delivers the result as
//! little-endian 16-bit samples. This crate holds the decisions of all that as
//! functions and state machines over plain values.

pub mod capture_laws;
pub mod devices;
pub mod dsp;
pub mod dsp_laws;
pub mod error;
pub mod microphone;
pub mod pcm;
pub mod resample;
pub mod ring;
pub mod system;
