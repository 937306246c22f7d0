//! The closed set of model kinds a request may name, and the validator that
//! rejects everything outside it before any worker invocation.
use vstd::prelude::*;
use vstd::string::StringExecFns;

use crate::errors::OrchestratorError;

verus! {

/// The closed enumeration of generation kinds the worker understands.
#[derive(Clone, Copy, PartialEq, Eq, Debug, Structural)]
pub enum ModelType {
    TextToImage,
    TextToAudio,
    TextToVideo,
    TextGeneration,
}

/// The wire name of each model kind, as the worker protocol spells it.
pub open spec fn spec_model_type_name(t: ModelType) -> Seq<char> {
    match t {
        ModelType::TextToImage => "text-to-image"@,
        ModelType::TextToAudio => "text-to-audio"@,
        ModelType::TextToVideo => "text-to-video"@,
        ModelType::TextGeneration => "text-generation"@,
    }
}

/// Which model kind, if any, a raw `model_type` string names.
pub open spec fn spec_parse_model_type(s: Seq<char>) -> Option<ModelType> {
    if s == "text-to-image"@ {
        Some(ModelType::TextToImage)
    } else if s == "text-to-audio"@ {
        Some(ModelType::TextToAudio)
    } else if s == "text-to-video"@ {
        Some(ModelType::TextToVideo)
    } else if s == "text-generation"@ {
        Some(ModelType::TextGeneration)
    } else {
        None
    }
}

/// Equality of two string slices, decided by their character sequences.
pub fn str_eq(a: &str, b: &str) -> (r: bool)
    ensures
        r == (a@ == b@),
{
    let sa = String::from_str(a);
    let sb = String::from_str(b);
    sa == sb
}

impl ModelType {
    /// The wire name of this model kind.
    pub fn name(&self) -> (r: &'static str)
        ensures
            r@ == spec_model_type_name(*self),
    {
        match self {
            ModelType::TextToImage => "text-to-image",
            ModelType::TextToAudio => "text-to-audio",
            ModelType::TextToVideo => "text-to-video",
            ModelType::TextGeneration => "text-generation",
        }
    }
}

/// Parses a raw `model_type` string against the closed set.
pub fn parse_model_type(s: &str) -> (r: Option<ModelType>)
    ensures
        r == spec_parse_model_type(s@),
{
    if str_eq(s, "text-to-image") {
        Some(ModelType::TextToImage)
    } else if str_eq(s, "text-to-audio") {
        Some(ModelType::TextToAudio)
    } else if str_eq(s, "text-to-video") {
        Some(ModelType::TextToVideo)
    } else if str_eq(s, "text-generation") {
        Some(ModelType::TextGeneration)
    } else {
        None
    }
}

/// Validates a raw `model_type` string: the parsed kind on success,
/// `InvalidModelType` carrying the rejected text otherwise.
pub fn validate_model_type(s: &str) -> (r: Result<ModelType, OrchestratorError>)
    ensures
        r is Ok <==> spec_parse_model_type(s@) is Some,
        r is Ok ==> Some(r->Ok_0) == spec_parse_model_type(s@),
        r is Err ==> (r->Err_0 matches OrchestratorError::InvalidModelType { given } && given@
            == s@),
{
    match parse_model_type(s) {
        Some(t) => Ok(t),
        None => Err(OrchestratorError::InvalidModelType { given: String::from_str(s) }),
    }
}

} // verus!
