//! A beat scheduler for a metronome with seven timing modes.
//!
//! The scheduler decides, beat by beat, when a tick fires, which tempo is in
//! effect, whether the tick is accented and which sound is to be played. It
//! never touches a clock, a queue or an audio device itself: the caller hands
//! it the current time and the pending commands, and gets back the events to
//! publish and the sound to play.
//!
//! `scheduler` holds the scheduler, `model` what it does as mathematical
//! values, `laws` what follows from that, and one module each holds a mode.
//! `state`, `controls`, `display`, `cache` and `sound_type` are the state,
//! the keys and the screen of a console metronome, `classic` those of a
//! plainer one.

pub mod cache;
pub mod classic;
pub mod controls;
pub mod countdown;
pub mod display;
pub mod draw;
pub mod laws;
pub mod mode;
pub mod model;
pub mod polyrhythm;
pub mod practice;
pub mod protocol;
pub mod random;
pub mod ritardando;
pub mod scheduler;
pub mod session;
pub mod sound_type;
pub mod state;
pub mod subdivision;
pub mod timing;
