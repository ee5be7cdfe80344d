//! Lifecycle of a model engine that is expensive to construct, keeps state
//! between calls, and must never be used by two callers at once.
//!
//! A module owns one [`slot::ModelSlot`]. The slot is empty until a load
//! installs an engine; a process call runs one inference on the installed
//! engine, or is turned away with a typed error. Both operations take the slot
//! by `&mut`, so the caller that runs one has the slot to itself for the whole
//! call. Whatever serialises the callers (a mutex around the slot, the single
//! owner of it) hands the slot over together with an [`slot::Access`]: after an
//! operation that ended abnormally the slot is emptied, and stays usable.
//!
//! * [`slot`]: the slot, its two operations and the functions that say what
//!   each of them does.
//! * [`error`]: the typed failures and their text.
//! * [`audio_transcription`], [`audio_vad`]: the speech-to-text and the
//!   voice-activity module, whose commands answer in plain strings.
//! * [`laws`]: what holds of every sequence of operations on a slot.

pub mod audio_transcription;
pub mod audio_vad;
pub mod error;
pub mod laws;
pub mod slot;
