//! The catalog: which models and which loras (named adapter presets) the
//! worker offers. Both are read-only queries with no job-lifecycle meaning;
//! this module decodes their list documents, pinned to the document model of
//! `jsonio`: decoding succeeds exactly when the document is an array of
//! well-shaped entries, and yields them all, in order, member for member.
use vstd::prelude::*;
use vstd::slice::slice_to_vec;
use vstd::string::StringExecFns;

use crate::errors::OrchestratorError;
use crate::jsonio::{
    doc_of, json_as_array, json_as_string, json_get, json_is_number, json_model, json_to_text,
    json_wf, member_of, parse_json, rendered, spec_number_member, spec_text_member, JsonNode,
};

verus! {

/// One model the worker offers. `parameters` holds the model's parameter
/// schema as JSON text, uninterpreted by this layer.
#[derive(Debug)]
pub struct ModelInfo {
    pub name: String,
    pub model_type: String,
    pub description: String,
    pub parameters: String,
}

/// One lora the worker offers. `strength` holds the default blend weight as
/// the JSON number's own text, so no precision is lost in a layer that never
/// computes with it.
#[derive(Debug)]
pub struct LoraInfo {
    pub name: String,
    pub model_type: String,
    pub description: String,
    pub strength: String,
}

/// Whether a document shapes one model entry: three text members and a
/// parameter-schema member of any kind.
pub open spec fn doc_is_model_entry(d: JsonNode) -> bool {
    &&& spec_text_member(d, "name"@) is Some
    &&& spec_text_member(d, "model_type"@) is Some
    &&& spec_text_member(d, "description"@) is Some
    &&& member_of(d, "parameters"@) is Some
}

/// Whether a decoded model entry reads the document member for member.
pub open spec fn model_entry_matches(m: ModelInfo, d: JsonNode) -> bool {
    &&& spec_text_member(d, "name"@) == Some(m.name@)
    &&& spec_text_member(d, "model_type"@) == Some(m.model_type@)
    &&& spec_text_member(d, "description"@) == Some(m.description@)
    &&& member_of(d, "parameters"@) is Some
    &&& m.parameters@ == rendered(member_of(d, "parameters"@)->0)
}

/// Whether a document shapes one lora entry: three text members and a
/// numeric strength.
pub open spec fn doc_is_lora_entry(d: JsonNode) -> bool {
    &&& spec_text_member(d, "name"@) is Some
    &&& spec_text_member(d, "model_type"@) is Some
    &&& spec_text_member(d, "description"@) is Some
    &&& spec_number_member(d, "strength"@) is Some
}

/// Whether a decoded lora entry reads the document member for member, the
/// strength as the number's own text, unmodified.
pub open spec fn lora_entry_matches(l: LoraInfo, d: JsonNode) -> bool {
    &&& spec_text_member(d, "name"@) == Some(l.name@)
    &&& spec_text_member(d, "model_type"@) == Some(l.model_type@)
    &&& spec_text_member(d, "description"@) == Some(l.description@)
    &&& spec_number_member(d, "strength"@) == Some(l.strength@)
}

/// Whether a document is a well-formed model list: an array of model entries.
pub open spec fn doc_is_model_list(d: JsonNode) -> bool {
    &&& d is Array
    &&& forall|i: int|
        0 <= i < d->Array_0.len() ==> doc_is_model_entry(#[trigger] d->Array_0[i])
}

/// Whether a document is a well-formed lora list: an array of lora entries.
pub open spec fn doc_is_lora_list(d: JsonNode) -> bool {
    &&& d is Array
    &&& forall|i: int| 0 <= i < d->Array_0.len() ==> doc_is_lora_entry(#[trigger] d->Array_0[i])
}

/// The model entry, if any, that a set of decoded members shapes: the three
/// text members and the parameter schema must all be present.
pub open spec fn spec_shape_model(
    name: Option<String>,
    model_type: Option<String>,
    description: Option<String>,
    parameters: Option<String>,
) -> Option<ModelInfo> {
    match (name, model_type, description, parameters) {
        (Some(n), Some(t), Some(d), Some(p)) => Some(
            ModelInfo { name: n, model_type: t, description: d, parameters: p },
        ),
        _ => None,
    }
}

/// Shapes decoded members into a model entry.
pub fn shape_model(
    name: Option<String>,
    model_type: Option<String>,
    description: Option<String>,
    parameters: Option<String>,
) -> (r: Option<ModelInfo>)
    ensures
        r == spec_shape_model(name, model_type, description, parameters),
{
    match (name, model_type, description, parameters) {
        (Some(n), Some(t), Some(d), Some(p)) => Some(
            ModelInfo { name: n, model_type: t, description: d, parameters: p },
        ),
        _ => None,
    }
}

/// The lora entry, if any, that a set of decoded members shapes: the three
/// text members and the numeric strength must all be present.
pub open spec fn spec_shape_lora(
    name: Option<String>,
    model_type: Option<String>,
    description: Option<String>,
    strength: Option<String>,
) -> Option<LoraInfo> {
    match (name, model_type, description, strength) {
        (Some(n), Some(t), Some(d), Some(s)) => Some(
            LoraInfo { name: n, model_type: t, description: d, strength: s },
        ),
        _ => None,
    }
}

/// Shapes decoded members into a lora entry.
pub fn shape_lora(
    name: Option<String>,
    model_type: Option<String>,
    description: Option<String>,
    strength: Option<String>,
) -> (r: Option<LoraInfo>)
    ensures
        r == spec_shape_lora(name, model_type, description, strength),
{
    match (name, model_type, description, strength) {
        (Some(n), Some(t), Some(d), Some(s)) => Some(
            LoraInfo { name: n, model_type: t, description: d, strength: s },
        ),
        _ => None,
    }
}

/// Decodes the worker's `list-models` output. On well-formed JSON it
/// succeeds exactly when the document is an array of model entries, and
/// yields them all, in order. Every failure is a `DecodeError` retaining the
/// raw bytes.
pub fn decode_model_list(raw: &[u8]) -> (r: Result<Vec<ModelInfo>, OrchestratorError>)
    ensures
        !json_wf(raw@) ==> r is Err,
        json_wf(raw@) ==> (r is Ok <==> doc_is_model_list(doc_of(raw@))),
        r is Err ==> (r->Err_0 matches OrchestratorError::DecodeError { raw: b } && b@ == raw@),
        r is Ok ==> (r->Ok_0@.len() == doc_of(raw@)->Array_0.len() && forall|i: int|
            0 <= i < r->Ok_0@.len() ==> model_entry_matches(
                #[trigger] r->Ok_0@[i],
                doc_of(raw@)->Array_0[i],
            )),
{
    let doc = match parse_json(raw) {
        Ok(v) => v,
        Err(_) => {
            return Err(OrchestratorError::DecodeError { raw: slice_to_vec(raw) });
        },
    };
    let items = match json_as_array(&doc) {
        Some(a) => a,
        None => {
            return Err(OrchestratorError::DecodeError { raw: slice_to_vec(raw) });
        },
    };
    let ghost arr = doc_of(raw@)->Array_0;
    let mut out: Vec<ModelInfo> = Vec::new();
    let n = items.len();
    let mut i: usize = 0;
    while i < n
        invariant
            n == items@.len(),
            i <= n,
            arr == doc_of(raw@)->Array_0,
            arr.len() == n,
            forall|k: int| 0 <= k < n ==> json_model(#[trigger] items@[k]) == arr[k],
            out@.len() == i,
            forall|k: int| 0 <= k < i ==> model_entry_matches(#[trigger] out@[k], arr[k]),
        decreases n - i,
    {
        let item = &items[i];
        let name = match json_get(item, "name") {
            Some(node) => json_as_string(node),
            None => None,
        };
        let model_type = match json_get(item, "model_type") {
            Some(node) => json_as_string(node),
            None => None,
        };
        let description = match json_get(item, "description") {
            Some(node) => json_as_string(node),
            None => None,
        };
        let parameters = match json_get(item, "parameters") {
            Some(node) => Some(json_to_text(node)),
            None => None,
        };
        match shape_model(name, model_type, description, parameters) {
            Some(m) => out.push(m),
            None => {
                proof {
                    assert(json_model(items@[i as int]) == arr[i as int]);
                    assert(!doc_is_model_entry(doc_of(raw@)->Array_0[i as int]));
                }
                return Err(OrchestratorError::DecodeError { raw: slice_to_vec(raw) });
            },
        }
        i = i + 1;
    }
    proof {
        assert forall|k: int| 0 <= k < arr.len() implies doc_is_model_entry(
            #[trigger] arr[k],
        ) by {
            assert(model_entry_matches(out@[k], arr[k]));
        }
    }
    Ok(out)
}

/// Decodes the worker's `list-loras` output. On well-formed JSON it succeeds
/// exactly when the document is an array of lora entries, and yields them
/// all, in order, each strength the number's own text. Every failure is a
/// `DecodeError` retaining the raw bytes.
pub fn decode_lora_list(raw: &[u8]) -> (r: Result<Vec<LoraInfo>, OrchestratorError>)
    ensures
        !json_wf(raw@) ==> r is Err,
        json_wf(raw@) ==> (r is Ok <==> doc_is_lora_list(doc_of(raw@))),
        r is Err ==> (r->Err_0 matches OrchestratorError::DecodeError { raw: b } && b@ == raw@),
        r is Ok ==> (r->Ok_0@.len() == doc_of(raw@)->Array_0.len() && forall|i: int|
            0 <= i < r->Ok_0@.len() ==> lora_entry_matches(
                #[trigger] r->Ok_0@[i],
                doc_of(raw@)->Array_0[i],
            )),
{
    let doc = match parse_json(raw) {
        Ok(v) => v,
        Err(_) => {
            return Err(OrchestratorError::DecodeError { raw: slice_to_vec(raw) });
        },
    };
    let items = match json_as_array(&doc) {
        Some(a) => a,
        None => {
            return Err(OrchestratorError::DecodeError { raw: slice_to_vec(raw) });
        },
    };
    let ghost arr = doc_of(raw@)->Array_0;
    let mut out: Vec<LoraInfo> = Vec::new();
    let n = items.len();
    let mut i: usize = 0;
    while i < n
        invariant
            n == items@.len(),
            i <= n,
            arr == doc_of(raw@)->Array_0,
            arr.len() == n,
            forall|k: int| 0 <= k < n ==> json_model(#[trigger] items@[k]) == arr[k],
            out@.len() == i,
            forall|k: int| 0 <= k < i ==> lora_entry_matches(#[trigger] out@[k], arr[k]),
        decreases n - i,
    {
        let item = &items[i];
        let name = match json_get(item, "name") {
            Some(node) => json_as_string(node),
            None => None,
        };
        let model_type = match json_get(item, "model_type") {
            Some(node) => json_as_string(node),
            None => None,
        };
        let description = match json_get(item, "description") {
            Some(node) => json_as_string(node),
            None => None,
        };
        let strength = match json_get(item, "strength") {
            Some(node) => if json_is_number(node) {
                Some(json_to_text(node))
            } else {
                None
            },
            None => None,
        };
        match shape_lora(name, model_type, description, strength) {
            Some(l) => out.push(l),
            None => {
                proof {
                    assert(json_model(items@[i as int]) == arr[i as int]);
                    assert(!doc_is_lora_entry(doc_of(raw@)->Array_0[i as int]));
                }
                return Err(OrchestratorError::DecodeError { raw: slice_to_vec(raw) });
            },
        }
        i = i + 1;
    }
    proof {
        assert forall|k: int| 0 <= k < arr.len() implies doc_is_lora_entry(#[trigger] arr[k]) by {
            assert(lora_entry_matches(out@[k], arr[k]));
        }
    }
    Ok(out)
}

/// Turns one finished `list-models` invocation into the caller's result: a
/// non-zero exit is the worker's own failure, a zero exit is decoded against
/// the document model, and a parse failure stays a `DecodeError`, never a
/// `WorkerError`.
pub fn interpret_model_list_result(exit_ok: bool, stdout: &[u8], stderr: &str) -> (r: Result<
    Vec<ModelInfo>,
    OrchestratorError,
>)
    ensures
        !exit_ok ==> (r is Err && (r->Err_0 matches OrchestratorError::WorkerError { message }
            && message@ == stderr@)),
        exit_ok ==> (r is Err ==> (r->Err_0 matches OrchestratorError::DecodeError { raw: b }
            && b@ == stdout@)),
        exit_ok && !json_wf(stdout@) ==> r is Err,
        (exit_ok && json_wf(stdout@)) ==> (r is Ok <==> doc_is_model_list(doc_of(stdout@))),
        r is Ok ==> (r->Ok_0@.len() == doc_of(stdout@)->Array_0.len() && forall|i: int|
            0 <= i < r->Ok_0@.len() ==> model_entry_matches(
                #[trigger] r->Ok_0@[i],
                doc_of(stdout@)->Array_0[i],
            )),
{
    if exit_ok {
        decode_model_list(stdout)
    } else {
        Err(OrchestratorError::WorkerError { message: String::from_str(stderr) })
    }
}

/// Turns one finished `list-loras` invocation into the caller's result, with
/// the same split between worker failure and undecodable output.
pub fn interpret_lora_list_result(exit_ok: bool, stdout: &[u8], stderr: &str) -> (r: Result<
    Vec<LoraInfo>,
    OrchestratorError,
>)
    ensures
        !exit_ok ==> (r is Err && (r->Err_0 matches OrchestratorError::WorkerError { message }
            && message@ == stderr@)),
        exit_ok ==> (r is Err ==> (r->Err_0 matches OrchestratorError::DecodeError { raw: b }
            && b@ == stdout@)),
        exit_ok && !json_wf(stdout@) ==> r is Err,
        (exit_ok && json_wf(stdout@)) ==> (r is Ok <==> doc_is_lora_list(doc_of(stdout@))),
        r is Ok ==> (r->Ok_0@.len() == doc_of(stdout@)->Array_0.len() && forall|i: int|
            0 <= i < r->Ok_0@.len() ==> lora_entry_matches(
                #[trigger] r->Ok_0@[i],
                doc_of(stdout@)->Array_0[i],
            )),
{
    if exit_ok {
        decode_lora_list(stdout)
    } else {
        Err(OrchestratorError::WorkerError { message: String::from_str(stderr) })
    }
}

} // verus!
