//! Generation identifiers: random version-4 UUIDs in the hyphenated lowercase
//! text form, created once at submission and threaded through every later
//! status or cancel call.
use vstd::prelude::*;
use vstd::string::StrSliceExecFns;

verus! {

/// A lowercase hexadecimal digit.
pub open spec fn is_hex_lower(c: char) -> bool {
    (48 <= c as u32 && c as u32 <= 57) || (97 <= c as u32 && c as u32 <= 102)
}

/// Whether a position inside the 36-character form carries a hyphen.
pub open spec fn is_hyphen_pos(i: int) -> bool {
    i == 8 || i == 13 || i == 18 || i == 23
}

/// The hyphenated lowercase text form of a version-4 UUID: 36 characters,
/// hyphens at the four fixed positions, lowercase hex everywhere else, the
/// version digit `4`, and a variant digit among `8`, `9`, `a`, `b`.
pub open spec fn is_uuid_v4(s: Seq<char>) -> bool {
    &&& s.len() == 36
    &&& forall|i: int|
        0 <= i < 36 ==> if is_hyphen_pos(i) {
            #[trigger] s[i] == '-'
        } else {
            is_hex_lower(s[i])
        }
    &&& s[14] == '4'
    &&& (s[19] == '8' || s[19] == '9' || s[19] == 'a' || s[19] == 'b')
}

/// Decides whether a string is the hyphenated lowercase text form of a
/// version-4 UUID.
pub fn is_valid_generation_id(s: &str) -> (r: bool)
    ensures
        r == is_uuid_v4(s@),
{
    if s.unicode_len() != 36 {
        return false;
    }
    let mut i: usize = 0;
    while i < 36
        invariant
            s@.len() == 36,
            i <= 36,
            forall|k: int|
                0 <= k < i ==> if is_hyphen_pos(k) {
                    #[trigger] s@[k] == '-'
                } else {
                    is_hex_lower(s@[k])
                },
        decreases 36 - i,
    {
        let c = s.get_char(i);
        if i == 8 || i == 13 || i == 18 || i == 23 {
            if c != '-' {
                return false;
            }
        } else {
            let n = c as u32;
            if !((48 <= n && n <= 57) || (97 <= n && n <= 102)) {
                return false;
            }
        }
        i = i + 1;
    }
    let v = s.get_char(14);
    if v != '4' {
        return false;
    }
    let w = s.get_char(19);
    w == '8' || w == '9' || w == 'a' || w == 'b'
}

/// Relies on uuid::Uuid::new_v4 and uuid's Display form: a fresh random UUID
/// whose version nibble is 4 and whose variant bits are the RFC 4122 pattern,
/// printed as 36 lowercase hyphenated hex characters. Nothing is assumed
/// about which identifier comes back, only its shape. The draw aborts the
/// process if the operating system's randomness source fails — an
/// environmental failure, like allocation exhaustion, that no input can
/// provoke.
#[verifier::external_body]
pub fn fresh_generation_id() -> (r: String)
    ensures
        is_uuid_v4(r@),
{
    uuid::Uuid::new_v4().to_string()
}

} // verus!
