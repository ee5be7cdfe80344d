//! The failures of loading and of processing, and the text each one is given
//! where it leaves the library for a caller that only takes strings.

use vstd::prelude::*;
use vstd::string::*;

verus! {

/// Why a load did not install an engine.
#[derive(Debug, PartialEq, Eq)]
pub enum LoadError {
    /// The engine could not be constructed; the field is the constructor's own account.
    ConstructError(String),
}

/// What an engine reports when one inference call fails.
#[derive(Debug, PartialEq, Eq)]
pub struct InferError {
    /// The engine's own account of the failure.
    pub detail: String,
    /// Whether the engine can no longer serve further calls.
    pub engine_unusable: bool,
}

/// Why a process call returned no output.
#[derive(Debug, PartialEq, Eq)]
pub enum ProcessError {
    /// No engine is installed: load one first.
    NotLoaded,
    /// The engine failed on this call; the field is its own account.
    EngineFailed(String),
    /// The previous holder of the slot ended abnormally; the slot was emptied.
    LockFailure,
}

/// The text of a load failure for the model called `model`.
pub open spec fn load_error_text(model: Seq<char>, error: LoadError) -> Seq<char> {
    match error {
        LoadError::ConstructError(detail) => "Failed to load "@ + model + " model: "@ + detail@,
    }
}

/// The text of a process failure for the model called `model`. An engine's
/// failure is passed on in the engine's own words.
pub open spec fn process_error_text(model: Seq<char>, error: ProcessError) -> Seq<char> {
    match error {
        ProcessError::NotLoaded => model + " model is not loaded"@,
        ProcessError::EngineFailed(detail) => detail@,
        ProcessError::LockFailure => model
            + " model was reset after an interrupted operation; load it again"@,
    }
}

impl LoadError {
    /// The failure as one line of text.
    pub fn message(&self, model: &str) -> (text: String)
        ensures
            text@ == load_error_text(model@, *self),
    {
        match self {
            LoadError::ConstructError(detail) => {
                let mut text = String::from_str("Failed to load ");
                text.append(model);
                text.append(" model: ");
                text.append(detail.as_str());
                text
            },
        }
    }
}

impl ProcessError {
    /// The failure as one line of text.
    pub fn message(&self, model: &str) -> (text: String)
        ensures
            text@ == process_error_text(model@, *self),
    {
        match self {
            ProcessError::NotLoaded => {
                let mut text = String::from_str(model);
                text.append(" model is not loaded");
                text
            },
            ProcessError::EngineFailed(detail) => detail.clone(),
            ProcessError::LockFailure => {
                let mut text = String::from_str(model);
                text.append(" model was reset after an interrupted operation; load it again");
                text
            },
        }
    }
}

/// Whether `reply` is what a caller that only takes strings is told of a load
/// that ended as `result`.
pub open spec fn is_load_reply(model: Seq<char>, result: Result<(), LoadError>, reply: Result<
    (),
    String,
>) -> bool {
    match result {
        Ok(_) => reply is Ok,
        Err(error) => reply matches Err(text) && text@ == load_error_text(model, error),
    }
}

/// Whether `reply` is what a caller that only takes strings is told of a
/// process call that ended as `result`.
pub open spec fn is_process_reply<O>(
    model: Seq<char>,
    result: Result<O, ProcessError>,
    reply: Result<O, String>,
) -> bool {
    match result {
        Ok(output) => reply == Ok::<O, String>(output),
        Err(error) => reply matches Err(text) && text@ == process_error_text(model, error),
    }
}

/// Turns the error of a load, if any, into its text.
pub fn flatten_load(model: &str, result: Result<(), LoadError>) -> (reply: Result<(), String>)
    ensures
        is_load_reply(model@, result, reply),
{
    match result {
        Ok(_) => Ok(()),
        Err(error) => Err(error.message(model)),
    }
}

/// Turns the error of a process call, if any, into its text.
pub fn flatten_process<O>(model: &str, result: Result<O, ProcessError>) -> (reply: Result<
    O,
    String,
>)
    ensures
        is_process_reply(model@, result, reply),
{
    match result {
        Ok(output) => Ok(output),
        Err(error) => Err(error.message(model)),
    }
}

} // verus!
