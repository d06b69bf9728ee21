//! Keep-alive scheduling engine for audio output hardware.
//!
//! The library decides, from a stream of per-tick activity observations,
//! when to emit an inaudible keep-alive tone and when to ask the host to
//! suspend. All decision logic is verified; reading the probes, playing
//! the tone and invoking the suspend command are left to the embedding
//! program, which hands the library plain values and acts on its answers.
//!
//! Audio sample amplitudes and CPU usage percentages are carried as
//! fixed-point integers: samples in millionths of full scale, CPU usage
//! in hundredths of a percent.

pub mod config;
pub mod engine;
pub mod filter;
pub mod probe;
pub mod pulse;
pub mod scheduler;
pub mod suspend;
