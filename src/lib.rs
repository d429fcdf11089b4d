//! Spectral analysis core: window functions, signals, a radix-2 forward
//! transform plan and the spectra it produces.
//!
//! The library is generic over the sample type. Everything that decides
//! shapes, spans, lengths, orderings and frequencies is stated and proved
//! here; the arithmetic on samples is handed in by the caller as closures.

pub mod error;
pub mod fft;
pub mod ratio;
pub mod signal;
pub mod spectrum;
pub mod window;
