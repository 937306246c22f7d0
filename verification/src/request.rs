//! Generation requests and the canonical worker payload.
//!
//! A request is validated against the closed set of model kinds and then
//! framed as one JSON document, with the generation identifier threaded in at
//! framing time so every later step correlates through the same identifier.
use vstd::prelude::*;
use vstd::slice::slice_index_get;
use vstd::utf8::encode_utf8;

verus! {

/// A raw generation request as the application hands it over.
///
/// `parameters` holds the model-specific parameter bag as JSON text; the
/// orchestration layer threads it through without interpreting it.
#[derive(Debug)]
pub struct GenerationRequest {
    pub model_type: String,
    pub prompt: String,
    pub parameters: String,
    pub model_name: Option<String>,
    pub lora_name: Option<String>,
}

/// The lowercase hex digit for one nibble.
pub open spec fn hex_digit(n: u8) -> u8 {
    if n < 10 {
        (48 + n) as u8
    } else {
        (87 + n) as u8
    }
}

/// How one byte of a string appears inside a JSON string literal: quote and
/// backslash are escaped, control bytes become `\u00XX`, everything else
/// (including UTF-8 continuation bytes) passes through unchanged.
pub open spec fn escape_byte(b: u8) -> Seq<u8> {
    if b == 34 || b == 92 {
        seq![92u8, b]
    } else if b < 32 {
        seq![92u8, 117u8, 48u8, 48u8, hex_digit(b / 16), hex_digit(b % 16)]
    } else {
        seq![b]
    }
}

/// The JSON string-literal escaping of a byte sequence.
pub open spec fn escape_bytes(s: Seq<u8>) -> Seq<u8>
    decreases s.len(),
{
    if s.len() == 0 {
        Seq::empty()
    } else {
        escape_byte(s[0]) + escape_bytes(s.drop_first())
    }
}

/// Escaping distributes over concatenation.
pub proof fn lemma_escape_bytes_append(a: Seq<u8>, b: Seq<u8>)
    ensures
        escape_bytes(a + b) == escape_bytes(a) + escape_bytes(b),
    decreases a.len(),
{
    if a.len() == 0 {
        assert(a + b =~= b);
        assert(escape_bytes(a) + escape_bytes(b) =~= escape_bytes(b));
    } else {
        assert((a + b).drop_first() =~= a.drop_first() + b);
        assert((a + b)[0] == a[0]);
        lemma_escape_bytes_append(a.drop_first(), b);
        assert(escape_byte(a[0]) + (escape_bytes(a.drop_first()) + escape_bytes(b)) =~= (
        escape_byte(a[0]) + escape_bytes(a.drop_first())) + escape_bytes(b));
    }
}

/// Escaping a single byte is `escape_byte`.
pub proof fn lemma_escape_bytes_one(b: u8)
    ensures
        escape_bytes(seq![b]) == escape_byte(b),
{
    assert(seq![b].len() == 1);
    assert(seq![b][0] == b);
    assert(seq![b].drop_first() =~= Seq::<u8>::empty());
    assert(escape_bytes(seq![b]) == escape_byte(b) + escape_bytes(Seq::<u8>::empty()));
    assert(escape_byte(b) + escape_bytes(Seq::<u8>::empty()) =~= escape_byte(b));
}

/// A JSON string literal: the escaped bytes between double quotes.
pub open spec fn json_string_bytes(s: Seq<char>) -> Seq<u8> {
    seq![34u8] + escape_bytes(encode_utf8(s)) + seq![34u8]
}

/// An optional string field: a JSON string literal, or `null` when absent.
pub open spec fn spec_opt_string_field(o: Option<String>) -> Seq<u8> {
    match o {
        Some(s) => json_string_bytes(s@),
        None => encode_utf8("null"@),
    }
}

/// The canonical worker payload for a request under a given generation
/// identifier: one JSON object with the request's fields in a fixed order,
/// the `parameters` text spliced in verbatim, and the identifier last.
pub open spec fn spec_payload(req: GenerationRequest, id: Seq<char>) -> Seq<u8> {
    encode_utf8("{\"model_type\":"@) + json_string_bytes(req.model_type@) + encode_utf8(
        ",\"prompt\":"@,
    ) + json_string_bytes(req.prompt@) + encode_utf8(",\"parameters\":"@) + encode_utf8(
        req.parameters@,
    ) + encode_utf8(",\"model_name\":"@) + spec_opt_string_field(req.model_name) + encode_utf8(
        ",\"lora_name\":"@,
    ) + spec_opt_string_field(req.lora_name) + encode_utf8(",\"generation_id\":"@)
        + json_string_bytes(id) + encode_utf8("}"@)
}

/// Appends a byte slice to a buffer.
pub fn append_bytes(out: &mut Vec<u8>, s: &[u8])
    ensures
        final(out)@ == old(out)@ + s@,
{
    let n = s.len();
    let mut i: usize = 0;
    while i < n
        invariant
            n == s@.len(),
            i <= n,
            out@ == old(out)@ + s@.take(i as int),
        decreases n - i,
    {
        let b = *slice_index_get(s, i);
        out.push(b);
        proof {
            assert(s@.take(i as int + 1) =~= s@.take(i as int).push(b));
        }
        i = i + 1;
    }
    proof {
        assert(s@.take(n as int) =~= s@);
    }
}

/// The lowercase hex digit for one nibble.
fn hex_digit_byte(n: u8) -> (r: u8)
    requires
        n < 16,
    ensures
        r == hex_digit(n),
{
    if n < 10 {
        48 + n
    } else {
        87 + n
    }
}

/// Appends the JSON string-literal escaping of a string's UTF-8 bytes.
pub fn append_escaped(out: &mut Vec<u8>, s: &str)
    ensures
        final(out)@ == old(out)@ + escape_bytes(encode_utf8(s@)),
{
    let bytes: &[u8] = s.as_bytes();
    let n = bytes.len();
    let mut i: usize = 0;
    while i < n
        invariant
            n == bytes@.len(),
            i <= n,
            bytes@ == encode_utf8(s@),
            out@ == old(out)@ + escape_bytes(bytes@.take(i as int)),
        decreases n - i,
    {
        let b = *slice_index_get(bytes, i);
        let ghost prefix = out@;
        if b == 34 || b == 92 {
            out.push(92);
            out.push(b);
            proof {
                assert(out@ =~= prefix + escape_byte(b));
            }
        } else if b < 32 {
            out.push(92);
            out.push(117);
            out.push(48);
            out.push(48);
            out.push(hex_digit_byte(b / 16));
            out.push(hex_digit_byte(b % 16));
            proof {
                assert(out@ =~= prefix + escape_byte(b));
            }
        } else {
            out.push(b);
            proof {
                assert(out@ =~= prefix + escape_byte(b));
            }
        }
        proof {
            assert(bytes@.take(i as int + 1) =~= bytes@.take(i as int) + seq![b]);
            lemma_escape_bytes_append(bytes@.take(i as int), seq![b]);
            lemma_escape_bytes_one(b);
            assert(out@ =~= old(out)@ + escape_bytes(bytes@.take(i as int + 1)));
        }
        i = i + 1;
    }
    proof {
        assert(bytes@.take(n as int) =~= bytes@);
    }
}

/// Appends a JSON string literal holding the given text.
pub fn append_json_string(out: &mut Vec<u8>, s: &str)
    ensures
        final(out)@ == old(out)@ + json_string_bytes(s@),
{
    let ghost start = out@;
    out.push(34);
    append_escaped(out, s);
    out.push(34);
    proof {
        assert(out@ =~= start + json_string_bytes(s@));
    }
}

/// Frames the canonical worker payload for a validated request under the
/// generation identifier created at submission.
pub fn encode_payload(req: &GenerationRequest, id: &str) -> (r: Vec<u8>)
    ensures
        r@ == spec_payload(*req, id@),
{
    let mut out: Vec<u8> = Vec::new();
    append_bytes(&mut out, "{\"model_type\":".as_bytes());
    append_json_string(&mut out, req.model_type.as_str());
    append_bytes(&mut out, ",\"prompt\":".as_bytes());
    append_json_string(&mut out, req.prompt.as_str());
    append_bytes(&mut out, ",\"parameters\":".as_bytes());
    append_bytes(&mut out, req.parameters.as_str().as_bytes());
    append_bytes(&mut out, ",\"model_name\":".as_bytes());
    match &req.model_name {
        Some(s) => append_json_string(&mut out, s.as_str()),
        None => append_bytes(&mut out, "null".as_bytes()),
    }
    append_bytes(&mut out, ",\"lora_name\":".as_bytes());
    match &req.lora_name {
        Some(s) => append_json_string(&mut out, s.as_str()),
        None => append_bytes(&mut out, "null".as_bytes()),
    }
    append_bytes(&mut out, ",\"generation_id\":".as_bytes());
    append_json_string(&mut out, id);
    append_bytes(&mut out, "}".as_bytes());
    proof {
        assert(out@ =~= spec_payload(*req, id@));
    }
    out
}

} // verus!
