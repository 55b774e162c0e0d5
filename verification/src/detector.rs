//! The extension stage: an optional, swappable per-buffer analysis unit (an
//! object detector) owned exclusively by the element. Construction creates a
//! lightweight handle; the expensive resources (the model) are loaded at the
//! Null-to-Ready transition and released at the transition back to Null.

use vstd::prelude::*;
use crate::signal::{Buffer, BufferView};

verus! {

/// How the stage treats a buffer: hand it through untouched, annotate it with
/// the analysis results, or fail on every buffer (a stage whose model cannot
/// process the frames it is given).
#[derive(Clone, Copy, Debug, PartialEq, Eq, Structural)]
pub enum StageMode {
    PassThrough,
    Annotate,
    Fault,
}

/// Failure of the stage on one buffer. The element maps it to a flow error;
/// it never escapes as a panic.
#[derive(Clone, Copy, Debug, PartialEq, Eq, Structural)]
pub enum StageError {
    ProcessFailed,
}

/// The analysis stage. `resources_loaded` says whether the model is in
/// memory; the element keeps it loaded exactly while the lifecycle state is
/// at or above Ready.
#[derive(Debug)]
pub struct Detector {
    pub mode: StageMode,
    pub resources_loaded: bool,
}

impl Detector {
    /// What `process` yields for a buffer: the buffer unchanged, the buffer
    /// marked as annotated, or a stage error — payload and timing are never
    /// altered.
    pub open spec fn process_spec(self, b: BufferView) -> Result<BufferView, StageError> {
        match self.mode {
            StageMode::PassThrough => Ok(b),
            StageMode::Annotate => Ok(BufferView { annotated: true, ..b }),
            StageMode::Fault => Err(StageError::ProcessFailed),
        }
    }

    /// Create the lightweight handle; no resources are loaded yet.
    pub fn init(mode: StageMode) -> (d: Detector)
        ensures
            d.mode == mode,
            !d.resources_loaded,
    {
        Detector { mode, resources_loaded: false }
    }

    /// Load the expensive resources (the model). Called once, when the
    /// element crosses Null to Ready.
    pub fn load_resources(&mut self)
        requires
            !old(self).resources_loaded,
        ensures
            final(self).resources_loaded,
            final(self).mode == old(self).mode,
    {
        self.resources_loaded = true;
    }

    /// Release the resources. Called when the element reaches Null again.
    pub fn release_resources(&mut self)
        requires
            old(self).resources_loaded,
        ensures
            !final(self).resources_loaded,
            final(self).mode == old(self).mode,
    {
        self.resources_loaded = false;
    }

    /// Analyse one buffer. Only called while the resources exist; carries no
    /// buffer-specific state past the call, so repeated calls with different
    /// buffers are independent.
    pub fn process(&self, buffer: Buffer) -> (r: Result<Buffer, StageError>)
        requires
            self.resources_loaded,
        ensures
            (r matches Ok(b) ==> self.process_spec(buffer@) == Ok::<BufferView, StageError>(
                b@,
            )),
            (r matches Err(e) ==> self.process_spec(buffer@) == Err::<BufferView, StageError>(
                e,
            )),
    {
        match self.mode {
            StageMode::PassThrough => Ok(buffer),
            StageMode::Annotate => {
                let b = Buffer { payload: buffer.payload, pts: buffer.pts, annotated: true };
                Ok(b)
            },
            StageMode::Fault => Err(StageError::ProcessFailed),
        }
    }
}

} // verus!
