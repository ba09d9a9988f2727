//! The patch operation's control state: a strictly sequential state
//! machine for one operation. Configuration is validated before any
//! byte of the target image is touched; the external engine runs once;
//! observer failures during patching never alter the operation's state
//! or outcome.

use vstd::prelude::*;

use crate::errors::{is_validation_error, ObserverError, PatchError};
use crate::progress::{deliver, ProgressEvent, ProgressObserver};

verus! {

/// The category of a failed operation: failed validation (before
/// patching began) or a runtime failure of the external engine.
#[derive(Clone, Copy, PartialEq, Eq, Structural, Debug)]
pub enum FailureKind {
    Validation,
    Runtime,
}

/// The control state of one patch operation.
#[derive(Clone, Copy, PartialEq, Eq, Structural, Debug)]
pub enum OpState {
    /// Nothing has happened yet.
    Idle,
    /// The configuration document parsed successfully.
    ConfigValidated,
    /// The external engine is running against the target image.
    Patching,
    /// The engine returned success.
    Completed,
    /// The operation failed, in the recorded category.
    Failed(FailureKind),
}

/// The transitions a patch operation can make: configuration validation
/// succeeds or fails the idle operation; a validated operation starts
/// patching; while patching, event delivery leaves the state alone, and
/// the engine's outcome completes or fails the operation. No transition
/// leaves `Completed` or `Failed`, and `Patching` is reachable only
/// through `ConfigValidated`.
pub open spec fn spec_step_allowed(pre: OpState, post: OpState) -> bool {
    ||| (pre == OpState::Idle && post == OpState::ConfigValidated)
    ||| (pre == OpState::Idle && post == OpState::Failed(FailureKind::Validation))
    ||| (pre == OpState::ConfigValidated && post == OpState::Patching)
    ||| (pre == OpState::Patching && post == OpState::Patching)
    ||| (pre == OpState::Patching && post == OpState::Completed)
    ||| (pre == OpState::Patching && post == OpState::Failed(FailureKind::Runtime))
}

/// One patch operation, driven through its states by the caller:
/// `Idle -> ConfigValidated -> Patching -> Completed | Failed`.
pub struct PatchOperation {
    pub state: OpState,
}

impl PatchOperation {
    /// Begins an operation in the idle state.
    pub fn new() -> (r: PatchOperation)
        ensures
            r.state == OpState::Idle,
    {
        PatchOperation { state: OpState::Idle }
    }

    /// Records the outcome of parsing the configuration document, which
    /// the external engine's parser decides. On success the operation
    /// may proceed; on failure it fails with a validation error that
    /// carries the parser's message unmodified, before any mutation of
    /// the target image.
    pub fn validate_config(&mut self, parse_result: Result<(), String>) -> (r: Result<
        (),
        PatchError,
    >)
        requires
            old(self).state == OpState::Idle,
        ensures
            parse_result matches Ok(_) ==> final(self).state == OpState::ConfigValidated && r
                matches Ok(_),
            parse_result matches Err(m) ==> final(self).state == OpState::Failed(
                FailureKind::Validation,
            ) && r == Err::<(), PatchError>(PatchError::InvalidConfig(m)),
            r matches Err(e) ==> is_validation_error(e),
            spec_step_allowed(old(self).state, final(self).state),
    {
        match parse_result {
            Ok(_) => {
                self.state = OpState::ConfigValidated;
                Ok(())
            },
            Err(m) => {
                self.state = OpState::Failed(FailureKind::Validation);
                Err(PatchError::InvalidConfig(m))
            },
        }
    }

    /// Hands control to the external engine: the operation is patching.
    pub fn start_patching(&mut self)
        requires
            old(self).state == OpState::ConfigValidated,
        ensures
            final(self).state == OpState::Patching,
            spec_step_allowed(old(self).state, final(self).state),
    {
        self.state = OpState::Patching;
    }

    /// Delivers one progress event to the observer while patching.
    /// Whatever the observer's callback does — including raising a
    /// failure — the operation's state is unchanged: an observer
    /// failure is reported back, never escalated, and cannot alter the
    /// outcome of the operation.
    pub fn deliver_event<O: ProgressObserver>(
        &mut self,
        observer: &mut O,
        event: &ProgressEvent,
    ) -> (failure: Option<ObserverError>)
        requires
            old(self).state == OpState::Patching,
        ensures
            final(self).state == old(self).state,
            spec_step_allowed(old(self).state, final(self).state),
    {
        deliver(observer, event)
    }

    /// Records the outcome the external engine reported. Success
    /// completes the operation; failure is a runtime error, distinct
    /// from a validation error, carrying the engine's message
    /// unmodified.
    pub fn finish(&mut self, engine_result: Result<(), String>) -> (r: Result<(), PatchError>)
        requires
            old(self).state == OpState::Patching,
        ensures
            engine_result matches Ok(_) ==> final(self).state == OpState::Completed && r matches
                Ok(_),
            engine_result matches Err(m) ==> final(self).state == OpState::Failed(
                FailureKind::Runtime,
            ) && r == Err::<(), PatchError>(PatchError::Runtime(m)),
            r matches Err(e) ==> !is_validation_error(e),
            spec_step_allowed(old(self).state, final(self).state),
    {
        match engine_result {
            Ok(_) => {
                self.state = OpState::Completed;
                Ok(())
            },
            Err(m) => {
                self.state = OpState::Failed(FailureKind::Runtime);
                Err(PatchError::Runtime(m))
            },
        }
    }
}

} // verus!
