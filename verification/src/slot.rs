//! The slot that holds a module's engine, and the two operations on it.
//!
//! Every operation takes the slot by `&mut`: whoever runs one holds the slot
//! alone for the whole call, and an engine operation cannot reach back into
//! the slot it was called from.

use vstd::prelude::*;
use crate::error::{InferError, LoadError, ProcessError};

verus! {

/// How the slot was handed over by whatever serialises its callers: a lock
/// reports here that its previous holder never released it.
#[derive(Debug, Clone, Copy, PartialEq, Eq)]
pub enum Access {
    /// The previous holder released the slot normally.
    Clean,
    /// The previous holder ended abnormally while it held the slot.
    AfterAbort,
}

/// Storage for at most one loaded engine. Its view is the engine it holds, if
/// any: `None` is the unloaded module, `Some` the ready one.
pub struct ModelSlot<E> {
    engine: Option<E>,
}

impl<E> View for ModelSlot<E> {
    type V = Option<E>;

    closed spec fn view(&self) -> Option<E> {
        self.engine
    }
}

/// What the slot holds once access is taken: nothing, if the previous holder
/// ended abnormally.
pub open spec fn held_on_entry<E>(held: Option<E>, access: Access) -> Option<E> {
    match access {
        Access::Clean => held,
        Access::AfterAbort => None,
    }
}

/// What a load returns for a given outcome of the engine's construction.
pub open spec fn load_result<E>(built: Result<E, String>) -> Result<(), LoadError> {
    match built {
        Ok(_) => Ok(()),
        Err(detail) => Err(LoadError::ConstructError(detail)),
    }
}

/// What the slot holds after a load: the new engine, or on failure what it
/// held on entry. A load that fails does not take a working engine away.
pub open spec fn held_after_load<E>(held: Option<E>, access: Access, built: Result<E, String>)
    -> Option<E> {
    match built {
        Ok(engine) => Some(engine),
        Err(_) => held_on_entry(held, access),
    }
}

/// The error with which a process call is turned away before it reaches an
/// engine, if it is.
pub open spec fn refusal<E>(held: Option<E>, access: Access) -> Option<ProcessError> {
    match access {
        Access::AfterAbort => Some(ProcessError::LockFailure),
        Access::Clean => match held {
            None => Some(ProcessError::NotLoaded),
            Some(_) => None,
        },
    }
}

/// What a process call returns for a given outcome of the inference.
pub open spec fn process_result<O>(inferred: Result<O, InferError>) -> Result<O, ProcessError> {
    match inferred {
        Ok(output) => Ok(output),
        Err(failure) => Err(ProcessError::EngineFailed(failure.detail)),
    }
}

/// Whether an inference outcome says that the engine cannot serve again.
pub open spec fn engine_lost<O>(inferred: Result<O, InferError>) -> bool {
    inferred matches Err(failure) && failure.engine_unusable
}

/// What the slot holds after an inference that left it holding `held`.
pub open spec fn held_after_inference<E, O>(held: Option<E>, inferred: Result<O, InferError>)
    -> Option<E> {
    if engine_lost(inferred) {
        None
    } else {
        held
    }
}

impl<E> Default for ModelSlot<E> {
    /// An empty slot.
    fn default() -> (slot: Self)
        ensures
            slot@ is None,
    {
        ModelSlot::new()
    }
}

impl<E> ModelSlot<E> {
    /// An empty slot.
    pub fn new() -> (slot: Self)
        ensures
            slot@ is None,
    {
        ModelSlot { engine: None }
    }

    /// Whether an engine is installed.
    pub fn is_loaded(&self) -> (loaded: bool)
        ensures
            loaded == (self@ is Some),
    {
        self.engine.is_some()
    }

    /// Empties the slot if the previous holder ended abnormally.
    pub fn enter(&mut self, access: Access)
        ensures
            final(self)@ == held_on_entry(old(self)@, access),
    {
        match access {
            Access::Clean => {},
            Access::AfterAbort => {
                self.engine = None;
            },
        }
    }

    /// Ends a load whose construction came out as `built`: a new engine
    /// replaces whatever was held, a failure leaves the slot as it was entered.
    /// A slot handed over after an abnormal end is entered empty, and the load
    /// is answered like any other.
    pub fn install(&mut self, access: Access, built: Result<E, String>) -> (r: Result<
        (),
        LoadError,
    >)
        ensures
            r == load_result(built),
            final(self)@ == held_after_load(old(self)@, access, built),
    {
        self.enter(access);
        match built {
            Ok(engine) => {
                self.engine = Some(engine);
                Ok(())
            },
            Err(detail) => Err(LoadError::ConstructError(detail)),
        }
    }

    /// Constructs an engine from `context` with `build` while holding the
    /// slot, and installs it. The context is used up by the construction. May
    /// be called again at any time, to replace the engine or to try again.
    pub fn load<C, B>(&mut self, access: Access, context: C, build: B) -> (r: Result<
        (),
        LoadError,
    >) where B: FnOnce(C) -> Result<E, String>
        requires
            call_requires(build, (context,)),
        ensures
            exists|built: Result<E, String>|
                {
                    &&& #[trigger] call_ensures(build, (context,), built)
                    &&& r == load_result(built)
                    &&& final(self)@ == held_after_load(old(self)@, access, built)
                },
    {
        self.enter(access);
        let built = build(context);
        self.install(Access::Clean, built)
    }

    /// Takes access for one inference: the held engine, or the error with
    /// which the call is turned away. An empty slot turns the call away at
    /// once; a slot handed over after an abnormal end is emptied and says so.
    pub fn acquire(&mut self, access: Access) -> (r: Result<&mut E, ProcessError>)
        ensures
            match refusal(old(self)@, access) {
                Some(error) => r == Err::<&mut E, ProcessError>(error) && final(self)@
                    == held_on_entry(old(self)@, access),
                None => r matches Ok(engine) && *engine == old(self)@->0 && final(self)@ == Some(
                    *final(engine),
                ),
            },
    {
        match access {
            Access::AfterAbort => {
                self.engine = None;
                Err(ProcessError::LockFailure)
            },
            Access::Clean => match self.engine.as_mut() {
                None => Err(ProcessError::NotLoaded),
                Some(engine) => Ok(engine),
            },
        }
    }

    /// Ends an inference that came out as `inferred`: passes the output on,
    /// names the engine's failure, and drops an engine that cannot serve again.
    pub fn settle<O>(&mut self, inferred: Result<O, InferError>) -> (r: Result<O, ProcessError>)
        ensures
            r == process_result(inferred),
            final(self)@ == held_after_inference(old(self)@, inferred),
    {
        match inferred {
            Ok(output) => Ok(output),
            Err(failure) => {
                if failure.engine_unusable {
                    self.engine = None;
                }
                Err(ProcessError::EngineFailed(failure.detail))
            },
        }
    }

    /// Runs one inference on the held engine: `infer` is handed the engine
    /// and `input`, once, unless the call is turned away first.
    pub fn process<I, O, F>(&mut self, access: Access, input: I, infer: F) -> (r: Result<
        O,
        ProcessError,
    >) where F: FnOnce(&mut E, I) -> Result<O, InferError>
        requires
            refusal(old(self)@, access) is None ==> forall|engine: &mut E|
                *engine == old(self)@->0 ==> call_requires(infer, (engine, input)),
        ensures
            match refusal(old(self)@, access) {
                Some(error) => r == Err::<O, ProcessError>(error) && final(self)@ == held_on_entry(
                    old(self)@,
                    access,
                ),
                None => exists|engine: &mut E, inferred: Result<O, InferError>|
                    {
                        &&& *engine == old(self)@->0
                        &&& #[trigger] call_ensures(infer, (engine, input), inferred)
                        &&& r == process_result(inferred)
                        &&& final(self)@ == held_after_inference(Some(*final(engine)), inferred)
                    },
            },
    {
        let inferred = match self.acquire(access) {
            Err(error) => {
                return Err(error);
            },
            Ok(engine) => infer(engine, input),
        };
        self.settle(inferred)
    }
}

} // verus!
