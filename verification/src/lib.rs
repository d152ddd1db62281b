//! Verified core of a volumetric raymarcher with an audio-reactive spectrum
//! analyser: the band layout of the spectrum, the sample accumulator that
//! feeds the FFT, host selection, keyboard input state and the per-frame
//! bookkeeping of the render loop.

pub mod analysis;
pub mod accumulator;
pub mod host;
pub mod uniforms;
pub mod wiggle;
pub mod render;
