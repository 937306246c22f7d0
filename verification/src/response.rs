//! Worker responses: the typed result of a generation or status call, the
//! decoder that reads one out of raw worker output, and the split between
//! worker-reported failure and undecodable output. Decoding is pinned to the
//! document model of `jsonio`: on well-formed input it succeeds exactly when
//! the document shapes a response for the expected identifier, and the result
//! is a function of the input bytes alone.
use vstd::prelude::*;
use vstd::slice::slice_to_vec;
use vstd::string::StringExecFns;

use crate::errors::OrchestratorError;
use crate::jsonio::{
    doc_of, json_as_bool, json_as_string, json_get, json_is_null, json_to_text, json_wf,
    member_of, parse_json, rendered, spec_text_member, JsonNode,
};
use crate::model_type::str_eq;

verus! {

/// The outcome of one generation or status call, as the worker reports it.
///
/// `data` holds the result payload as JSON text when the call succeeded;
/// `error` holds the worker's message when it did not. A well-formed response
/// populates exactly one of the two.
#[derive(Debug)]
pub struct GenerationResponse {
    pub success: bool,
    pub data: Option<String>,
    pub error: Option<String>,
    pub generation_id: String,
}

impl GenerationResponse {
    /// Exactly one of `data` and `error` is populated, and which one follows
    /// the `success` flag.
    pub open spec fn wf(self) -> bool {
        &&& self.success ==> (self.data is Some && self.error is None)
        &&& !self.success ==> (self.data is None && self.error is Some)
    }
}

/// Law: in a well-formed response, `data` is present exactly on success and
/// `error` exactly on failure — never both, never neither.
pub proof fn lemma_response_exclusive(r: GenerationResponse)
    requires
        r.wf(),
    ensures
        r.data is Some <==> r.success,
        r.error is Some <==> !r.success,
        !(r.data is Some && r.error is Some),
        r.data is Some || r.error is Some,
{
}

/// What the decoder found under an optional text member: absent (missing or
/// null), the text itself, or a node of the wrong kind.
pub enum TextField {
    Absent,
    Text(String),
    Wrong,
}

/// The `error` member a well-formed response would show for a given `error`
/// field.
pub open spec fn spec_error_field(o: Option<String>) -> TextField {
    match o {
        None => TextField::Absent,
        Some(e) => TextField::Text(e),
    }
}

/// The `success` member of a response document.
pub open spec fn spec_success_member(d: JsonNode) -> Option<bool> {
    match member_of(d, "success"@) {
        Some(JsonNode::Bool(b)) => Some(b),
        _ => None,
    }
}

/// The `data` member of a response document: absent when missing or null,
/// else the member's own JSON text.
pub open spec fn spec_data_member(d: JsonNode) -> Option<Seq<char>> {
    match member_of(d, "data"@) {
        None => None,
        Some(JsonNode::Null) => None,
        Some(n) => Some(rendered(n)),
    }
}

/// What the `error` member of a response document shows: absent when missing
/// or null, the text of a string member, wrong for any other kind.
pub enum ErrorMember {
    Absent,
    Text(Seq<char>),
    Wrong,
}

/// The `error` member of a response document.
pub open spec fn spec_error_member(d: JsonNode) -> ErrorMember {
    match member_of(d, "error"@) {
        None => ErrorMember::Absent,
        Some(JsonNode::Null) => ErrorMember::Absent,
        Some(JsonNode::Text(t)) => ErrorMember::Text(t),
        Some(_) => ErrorMember::Wrong,
    }
}

/// The `generation_id` member of a response document.
pub open spec fn spec_id_member(d: JsonNode) -> Option<Seq<char>> {
    match member_of(d, "generation_id"@) {
        Some(JsonNode::Text(t)) => Some(t),
        _ => None,
    }
}

/// Whether a document is a well-formed response for the given generation
/// identifier: flag and identifier present, the identifier the expected one,
/// and `data`/`error` agreeing with the flag — data exactly on success, an
/// error message exactly on failure.
pub open spec fn doc_is_response_for(d: JsonNode, id: Seq<char>) -> bool {
    &&& spec_id_member(d) == Some(id)
    &&& match spec_success_member(d) {
        Some(s) => if s {
            spec_data_member(d) is Some && spec_error_member(d) is Absent
        } else {
            spec_data_member(d) is None && spec_error_member(d) is Text
        },
        None => false,
    }
}

/// Whether a decoded response reads the document member for member.
pub open spec fn response_matches_doc(r: GenerationResponse, d: JsonNode) -> bool {
    &&& spec_success_member(d) == Some(r.success)
    &&& (match r.data {
        Some(t) => spec_data_member(d) == Some(t@),
        None => spec_data_member(d) is None,
    })
    &&& (match r.error {
        Some(t) => spec_error_member(d) == ErrorMember::Text(t@),
        None => spec_error_member(d) is Absent,
    })
    &&& spec_id_member(d) == Some(r.generation_id@)
}

/// The response, if any, that a set of decoded members shapes: `success` and
/// `generation_id` must be present, and `data`/`error` must agree with the
/// flag — data exactly on success, an error message exactly on failure.
pub open spec fn spec_shape_response(
    success: Option<bool>,
    data: Option<String>,
    error: TextField,
    id: Option<String>,
) -> Option<GenerationResponse> {
    match (success, id) {
        (Some(s), Some(gid)) => if s {
            match (data, error) {
                (Some(d), TextField::Absent) => Some(
                    GenerationResponse {
                        success: true,
                        data: Some(d),
                        error: None,
                        generation_id: gid,
                    },
                ),
                _ => None,
            }
        } else {
            match (data, error) {
                (None, TextField::Text(e)) => Some(
                    GenerationResponse {
                        success: false,
                        data: None,
                        error: Some(e),
                        generation_id: gid,
                    },
                ),
                _ => None,
            }
        },
        _ => None,
    }
}

/// Shapes decoded members into a response, or nothing where they do not form
/// a well-formed one.
pub fn shape_response(
    success: Option<bool>,
    data: Option<String>,
    error: TextField,
    id: Option<String>,
) -> (r: Option<GenerationResponse>)
    ensures
        r == spec_shape_response(success, data, error, id),
        r is Some ==> r->0.wf(),
{
    match (success, id) {
        (Some(s), Some(gid)) => if s {
            match (data, error) {
                (Some(d), TextField::Absent) => Some(
                    GenerationResponse {
                        success: true,
                        data: Some(d),
                        error: None,
                        generation_id: gid,
                    },
                ),
                _ => None,
            }
        } else {
            match (data, error) {
                (None, TextField::Text(e)) => Some(
                    GenerationResponse {
                        success: false,
                        data: None,
                        error: Some(e),
                        generation_id: gid,
                    },
                ),
                _ => None,
            }
        },
        _ => None,
    }
}

/// Law: shaping the members read back out of a well-formed response returns
/// that response unchanged.
pub proof fn lemma_shape_round_trip(r: GenerationResponse)
    requires
        r.wf(),
    ensures
        spec_shape_response(Some(r.success), r.data, spec_error_field(r.error), Some(r.generation_id))
            == Some(r),
{
}

/// Decodes raw worker output into the response for the given generation
/// identifier. On well-formed JSON it succeeds exactly when the document
/// shapes a response carrying that identifier, and the decoded value reads
/// the document member for member — the same bytes always decode the same
/// way. Every failure is a `DecodeError` retaining the raw bytes; every
/// decoded response is well-formed.
pub fn decode_generation_response(raw: &[u8], expected_id: &str) -> (r: Result<
    GenerationResponse,
    OrchestratorError,
>)
    ensures
        !json_wf(raw@) ==> r is Err,
        json_wf(raw@) ==> (r is Ok <==> doc_is_response_for(doc_of(raw@), expected_id@)),
        r is Err ==> (r->Err_0 matches OrchestratorError::DecodeError { raw: b } && b@ == raw@),
        r is Ok ==> (r->Ok_0.wf() && response_matches_doc(r->Ok_0, doc_of(raw@))
            && r->Ok_0.generation_id@ == expected_id@),
{
    let v = match parse_json(raw) {
        Ok(v) => v,
        Err(_) => {
            return Err(OrchestratorError::DecodeError { raw: slice_to_vec(raw) });
        },
    };
    let success = match json_get(&v, "success") {
        Some(node) => json_as_bool(node),
        None => None,
    };
    let data = match json_get(&v, "data") {
        Some(node) => if json_is_null(node) {
            None
        } else {
            Some(json_to_text(node))
        },
        None => None,
    };
    let error = match json_get(&v, "error") {
        Some(node) => if json_is_null(node) {
            TextField::Absent
        } else {
            match json_as_string(node) {
                Some(t) => TextField::Text(t),
                None => TextField::Wrong,
            }
        },
        None => TextField::Absent,
    };
    let id = match json_get(&v, "generation_id") {
        Some(node) => json_as_string(node),
        None => None,
    };
    match shape_response(success, data, error, id) {
        Some(resp) => if str_eq(resp.generation_id.as_str(), expected_id) {
            Ok(resp)
        } else {
            Err(OrchestratorError::DecodeError { raw: slice_to_vec(raw) })
        },
        None => Err(OrchestratorError::DecodeError { raw: slice_to_vec(raw) }),
    }
}

/// Turns one finished worker invocation into the caller's result for the
/// given generation identifier. A non-zero exit surfaces the worker's own
/// diagnostic text as `WorkerError`; on a zero exit the output is decoded
/// against the document model, owed to succeed exactly when the document
/// shapes a response for that identifier, and a failure there is a
/// `DecodeError`, never a `WorkerError`.
pub fn interpret_worker_result(expected_id: &str, exit_ok: bool, stdout: &[u8], stderr: &str) -> (r:
    Result<GenerationResponse, OrchestratorError>)
    ensures
        !exit_ok ==> (r is Err && (r->Err_0 matches OrchestratorError::WorkerError { message }
            && message@ == stderr@)),
        exit_ok ==> (r is Err ==> (r->Err_0 matches OrchestratorError::DecodeError { raw: b }
            && b@ == stdout@)),
        exit_ok && !json_wf(stdout@) ==> r is Err,
        (exit_ok && json_wf(stdout@)) ==> (r is Ok <==> doc_is_response_for(
            doc_of(stdout@),
            expected_id@,
        )),
        r is Ok ==> (r->Ok_0.wf() && response_matches_doc(r->Ok_0, doc_of(stdout@))
            && r->Ok_0.generation_id@ == expected_id@),
{
    if exit_ok {
        decode_generation_response(stdout, expected_id)
    } else {
        Err(OrchestratorError::WorkerError { message: String::from_str(stderr) })
    }
}

/// Turns one finished worker invocation with no output document (the `init`
/// and `cancel` subcommands) into the caller's result.
pub fn interpret_unit_result(exit_ok: bool, stderr: &str) -> (r: Result<(), OrchestratorError>)
    ensures
        r is Ok <==> exit_ok,
        !exit_ok ==> (r->Err_0 matches OrchestratorError::WorkerError { message } && message@
            == stderr@),
{
    if exit_ok {
        Ok(())
    } else {
        Err(OrchestratorError::WorkerError { message: String::from_str(stderr) })
    }
}

} // verus!
