//! What holds across consecutive loads and process calls on one slot, stated
//! over the functions that the operations' contracts are written in.

use vstd::prelude::*;
use crate::error::{process_error_text, InferError, ProcessError};
use crate::slot::{
    held_after_inference, held_after_load, held_on_entry, load_result, process_result, refusal,
    Access,
};

verus! {

/// A process call on a slot in which no load has succeeded is turned away with
/// `NotLoaded` before it reaches any engine, and leaves the slot empty. Loads
/// that failed in between change nothing of this.
pub proof fn unloaded_slot_turns_process_away<E>(access: Access, detail: String)
    ensures
        refusal(None::<E>, Access::Clean) == Some(ProcessError::NotLoaded),
        held_on_entry(None::<E>, Access::Clean) == None::<E>,
        held_after_load(None::<E>, access, Err(detail)) == None::<E>,
        load_result(Err::<E, String>(detail)) is Err,
{
}

/// After two loads that both constructed an engine the slot holds the second
/// one and no other, and the next process call reaches it.
pub proof fn reload_installs_second_engine<E>(
    held: Option<E>,
    first_access: Access,
    first: E,
    second_access: Access,
    second: E,
)
    ensures
        load_result(Ok::<E, String>(first)) is Ok,
        load_result(Ok::<E, String>(second)) is Ok,
        held_after_load(
            held_after_load(held, first_access, Ok(first)),
            second_access,
            Ok(second),
        ) == Some(second),
        refusal(Some(second), Access::Clean) is None,
{
}

/// A process call that fails leaves the slot able to serve the next one, as
/// long as the engine did not report itself unusable: a call turned away for
/// want of an engine leaves the slot as it was, and a failed inference leaves
/// the engine installed, so that the next call reaches it and an output of the
/// engine is passed on as success.
pub proof fn failed_process_leaves_slot_usable<E, O>(
    held: Option<E>,
    engine: E,
    failure: InferError,
    output: O,
)
    requires
        !failure.engine_unusable,
    ensures
        held_on_entry(held, Access::Clean) == held,
        process_result(Err::<O, InferError>(failure)) is Err,
        held_after_inference(Some(engine), Err::<O, InferError>(failure)) == Some(engine),
        refusal(Some(engine), Access::Clean) is None,
        process_result(Ok::<O, InferError>(output)) == Ok::<O, ProcessError>(output),
        held_after_inference(Some(engine), Ok::<O, InferError>(output)) == Some(engine),
{
}

/// A load that fails keeps the engine that was serving, unless the slot was
/// handed over after an abnormal end.
pub proof fn failed_load_keeps_engine<E>(held: Option<E>, detail: String)
    ensures
        held_after_load(held, Access::Clean, Err(detail)) == held,
        held_after_load(held, Access::AfterAbort, Err(detail)) == None::<E>,
{
}

/// Whatever a slot held, once it is handed over after an abnormal end it is
/// empty and usable: the process call that finds it so is answered with
/// `LockFailure`, the next one with `NotLoaded`, and a load installs its engine.
pub proof fn abnormal_end_resets_slot<E>(held: Option<E>, engine: E)
    ensures
        refusal(held, Access::AfterAbort) == Some(ProcessError::LockFailure),
        held_on_entry(held, Access::AfterAbort) == None::<E>,
        refusal(held_on_entry(held, Access::AfterAbort), Access::Clean) == Some(
            ProcessError::NotLoaded,
        ),
        held_after_load(held, Access::AfterAbort, Ok::<E, String>(engine)) == Some(engine),
{
}

/// An engine that reports itself unusable is dropped from the slot: later
/// calls are told to load again instead of reaching it.
pub proof fn unusable_engine_is_dropped<E, O>(engine: E, failure: InferError)
    requires
        failure.engine_unusable,
    ensures
        held_after_inference(Some(engine), Err::<O, InferError>(failure)) == None::<E>,
        refusal(
            held_after_inference(Some(engine), Err::<O, InferError>(failure)),
            Access::Clean,
        ) == Some(ProcessError::NotLoaded),
{
}

/// Whatever the model is called, the text that tells a caller that nothing
/// is loaded ends in the words "not loaded".
pub proof fn not_loaded_text_says_so(model: Seq<char>)
    ensures
        ({
            let text = process_error_text(model, ProcessError::NotLoaded);
            &&& text.len() == model.len() + 20
            &&& text.subrange(text.len() - 10, text.len() as int) == "not loaded"@
        }),
{
    reveal_strlit(" model is not loaded");
    reveal_strlit("not loaded");
    let text = process_error_text(model, ProcessError::NotLoaded);
    assert(text.subrange(text.len() - 10, text.len() as int) =~= "not loaded"@);
}

} // verus!
