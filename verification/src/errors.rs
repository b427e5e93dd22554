//! The error taxonomy shared by every component.

use vstd::prelude::*;

verus! {

/// Why a remote artifact fetch did not produce a usable file.
#[derive(Debug, PartialEq, Eq)]
pub enum FetchFailure {
    /// The hub reported that no such artifact exists.
    NotFound,
    /// The transfer failed before any response arrived.
    Network,
    /// The transfer ended early or the received size disagrees with the
    /// expected size; the partial data must be discarded.
    Incomplete,
    /// The hub answered with an unexpected HTTP status.
    Server(u16),
}

/// Every failure a caller of this crate can observe.
#[derive(Debug, PartialEq, Eq)]
pub enum ModelError {
    /// Strict device resolution was asked for and the accelerator backend
    /// could not be initialized.
    DeviceUnavailable,
    /// The model identifier is absent from the catalog.
    UnknownModel,
    /// A remote fetch failed; the cache was left untouched.
    ArtifactFetchFailed { model_id: String, filename: String, cause: FetchFailure },
    /// The artifact needs a credential that was missing or rejected.
    Unauthorized,
    /// The tokenizer could not encode or decode the given data.
    CodecError,
    /// The pipeline was given zero tokens; pooling over zero rows is
    /// undefined and is rejected before any tensor is allocated.
    EmptyInput,
    /// The numeric backend failed during embed / pool / project / argmax,
    /// or the requested table shapes cannot be materialized.
    PipelineError,
}

} // verus!
