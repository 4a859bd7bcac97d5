//! A stereo crossfade engine: blends a main stereo stream with an auxiliary
//! stereo stream under a per-sample mix coefficient.
//!
//! The mix coefficient is held in fixed point ([`mix::Mix`]), so the blend
//! `out = main * (1 - mix) + aux * mix` is stated and proved exactly over the
//! integers. Channel layouts are validated once at setup time
//! ([`config::EngineConfig`]); the per-sample path then works on whole
//! [`engine::StereoFrame`] values and never indexes out of bounds.

pub mod config;
pub mod engine;
pub mod mix;
