//! Job-orchestration layer between an interactive application and an external
//! content-generation worker: request validation and payload framing, response
//! decoding, a job registry tracking each generation's lifecycle, and catalog
//! queries for available models and adapters.
pub mod catalog;
pub mod errors;
pub mod ident;
pub mod jsonio;
pub mod model_type;
pub mod protocol;
pub mod registry;
pub mod request;
pub mod response;
