//! Lärmampel: a traffic light for the loudness of one's own voice, with a channel strip for the
//! microphone.
//!
//! This is what the program decides. Sound devices, windows, the registry and the arithmetic on
//! samples are around it: they hand in plain values and carry out what comes back.

pub mod agc;
pub mod apo;
pub mod apo_link;
pub mod apo_setup;
pub mod app;
pub mod audio;
pub mod autostart;
pub mod beep;
pub mod clock;
pub mod denoiser;
pub mod dsp;
pub mod echo;
pub mod headset;
pub mod instance;
pub mod lang;
pub mod level;
pub mod log;
pub mod panel;
pub mod placement;
pub mod removal;
pub mod ring;
pub mod settings;
pub mod shared;
pub mod single;
pub mod spectrum;
pub mod strip;
pub mod text;
pub mod tray;
pub mod updater;
pub mod volume_gate;
pub mod wide;
