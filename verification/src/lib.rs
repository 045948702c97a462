//! Core chipset logic of a cartridge-based 8-bit game console emulator.
//!
//! The crate covers the two parts of the console whose behaviour is entirely
//! determined by register writes and elapsed time: the MMC3-class
//! bank-switching cartridge circuit with its scanline-triggered interrupt
//! generator (`mapper_4`), and the audio unit's square-channel synthesis
//! model (`sound`). The presentation layer (window, textures, input, the
//! real-time audio device) lives outside this crate and talks to it through
//! plain values: addresses, bytes and flags in, bytes and samples out.

pub mod mapper_4;
pub mod sound;
