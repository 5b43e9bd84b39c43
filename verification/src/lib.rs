//! Windowing, sampling and decoding logic of a WAV waveform and spectrum viewer.
//!
//! The viewer shows the samples of a 16-bit WAV file in a zoomable plot and
//! the spectrum of the visible window beside it. This crate holds the parts of
//! that program that decide which samples are shown and analysed: decoding the
//! file's bytes, mapping the plot's visible x-range onto sample indices,
//! thinning the visible samples for drawing, choosing the spectrum bins to
//! draw, and naming musical notes.

pub mod coord;
pub mod window;
pub mod wav;
pub mod pcm;
pub mod transform;
pub mod wav_util;
