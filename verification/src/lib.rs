//! Push-to-talk dictation: the decisions of the pipeline from a key chord to
//! pasted text, stated as contracts and proved by Verus.
//!
//! A global hotkey starts and stops a recording, the recording is
//! transcribed by a remote service or by a model in the process, and the
//! transcript is pasted into the application that was frontmost at the
//! press. This library holds what is decided along the way; the caller owns
//! the devices, the network and the windows, performs what the library asks
//! for and reports back what happened.
//!
//! - [`hotkey`]: raw key states to `Press` and `Release`, never doubled.
//! - [`worker`]: the session state machine, one session at a time.
//! - [`audio`] and [`resample`]: the capture buffer and what is handed on
//!   when capture stops.
//! - [`transcribe`], [`remote`] and [`local`]: the choice of the backend, the
//!   bounded retry of the remote client, the model cache of the local worker,
//!   and the way from a backend's raw answer to the transcript.
//! - [`filter`]: telling filler from speech.
//! - [`paste`]: the steps of a paste.
//! - [`store`], [`license`] and [`download`]: what the application
//!   remembers, product keys, and fetching models.
//! - [`pill`] and [`sounds`]: the floating window's geometry and the layout
//!   of the feedback tones.
//! - [`error`], [`platform`] and [`text`]: failures, platforms and text
//!   primitives that the others share.

pub mod audio;
pub mod download;
pub mod error;
pub mod filter;
pub mod hotkey;
pub mod license;
pub mod local;
pub mod paste;
pub mod pill;
pub mod platform;
pub mod remote;
pub mod resample;
pub mod sounds;
pub mod store;
pub mod text;
pub mod transcribe;
pub mod worker;
