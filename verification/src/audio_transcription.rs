//! The speech-to-text module: one slot for a Whisper engine and the two
//! commands on it.

use vstd::prelude::*;
use crate::error::{flatten_load, flatten_process, is_load_reply, is_process_reply, InferError};
use crate::slot::{
    held_after_inference, held_after_load, held_on_entry, load_result, process_result, refusal,
    Access, ModelSlot,
};

verus! {

/// The name of the model in messages.
pub const MODEL: &'static str = "Whisper";

/// The state of the module at startup: a slot with no engine in it.
pub fn init<E>() -> (slot: ModelSlot<E>)
    ensures
        slot@ is None,
{
    ModelSlot::new()
}

/// Constructs a Whisper engine with `build` and installs it in `slot`.
/// `window` is where the construction reports its progress.
pub fn load_model_whisper<E, W, B>(
    slot: &mut ModelSlot<E>,
    access: Access,
    window: W,
    build: B,
) -> (reply: Result<(), String>) where B: FnOnce(W) -> Result<E, String>
    requires
        call_requires(build, (window,)),
    ensures
        exists|built: Result<E, String>|
            {
                &&& #[trigger] call_ensures(build, (window,), built)
                &&& is_load_reply(MODEL@, load_result(built), reply)
                &&& final(slot)@ == held_after_load(old(slot)@, access, built)
            },
{
    let result = slot.load(access, window, build);
    flatten_load(MODEL, result)
}

/// Transcribes one chunk of audio samples with the engine in `slot`:
/// `transcribe` is handed the engine and the whole chunk.
pub fn audio_transcription<E, S, F>(
    slot: &mut ModelSlot<E>,
    access: Access,
    chunk: Vec<S>,
    transcribe: F,
) -> (reply: Result<String, String>) where F: FnOnce(&mut E, &[S]) -> Result<String, InferError>
    requires
        refusal(old(slot)@, access) is None ==> forall|engine: &mut E, samples: &[S]|
            *engine == old(slot)@->0 && samples@ == chunk@ ==> call_requires(
                transcribe,
                (engine, samples),
            ),
    ensures
        match refusal(old(slot)@, access) {
            Some(error) => is_process_reply(MODEL@, Err::<String, _>(error), reply) && final(slot)@
                == held_on_entry(old(slot)@, access),
            None => exists|engine: &mut E, samples: &[S], inferred: Result<String, InferError>|
                {
                    &&& *engine == old(slot)@->0
                    &&& samples@ == chunk@
                    &&& #[trigger] call_ensures(transcribe, (engine, samples), inferred)
                    &&& is_process_reply(MODEL@, process_result(inferred), reply)
                    &&& final(slot)@ == held_after_inference(Some(*final(engine)), inferred)
                },
        },
{
    let result = slot.process(access, chunk.as_slice(), transcribe);
    flatten_process(MODEL, result)
}

} // verus!
