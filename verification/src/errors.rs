//! The error taxonomy of the orchestration layer. Every failure is a value
//! returned to the immediate caller; nothing in this layer panics or retries.
use vstd::prelude::*;

verus! {

/// One error kind per failure class of the orchestration layer.
///
/// - `InvalidModelType`: validation rejected an unrecognized `model_type`;
///   the request never reaches the worker.
/// - `TransportFailure`: the worker could not be started, timed out, or was
///   killed while work was pending.
/// - `WorkerError`: the worker exited non-zero; the message is the worker's
///   own diagnostic text, treated opaquely.
/// - `DecodeError`: worker output did not parse into the expected schema;
///   the raw bytes are retained for diagnosis.
/// - `UnknownJob`: a status or cancel call named an identifier the registry
///   has no record of.
#[derive(Debug)]
pub enum OrchestratorError {
    InvalidModelType { given: String },
    TransportFailure { message: String },
    WorkerError { message: String },
    DecodeError { raw: Vec<u8> },
    UnknownJob { generation_id: String },
}

} // verus!
