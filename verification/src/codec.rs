//! Canonical serialization of an action payload.
//!
//! The bytes that the off-chain authority signs (after hashing) are a
//! deterministic encoding of the payload: field order fixed, integers in
//! explicit-width little-endian form, strings length-prefixed. Two payloads
//! that differ in any logical field never serialize to the same bytes
//! (see [`lemma_canonical_bytes_injective`]).

use vstd::bytes::{spec_u32_to_le_bytes, spec_u64_to_le_bytes, u32_to_le_bytes, u64_to_le_bytes};
use vstd::prelude::*;
use vstd::slice::slice_to_vec;
use vstd::utf8::encode_utf8;

verus! {

/// An action payload: the action id plus the instance-specific fields of the
/// asset to mint, including the owner's 32-byte public key.
#[derive(Debug)]
pub struct CreateNftData {
    pub action_id: u64,
    pub token_name: String,
    pub token_symbol: String,
    pub token_uri: String,
    pub owner: [u8; 32],
}

/// Whether every variable-length field's UTF-8 form fits its 4-byte length
/// prefix. Serialization fails on anything longer.
pub open spec fn payload_encodable(d: CreateNftData) -> bool {
    &&& encode_utf8(d.token_name@).len() <= u32::MAX
    &&& encode_utf8(d.token_symbol@).len() <= u32::MAX
    &&& encode_utf8(d.token_uri@).len() <= u32::MAX
}

/// A string field's canonical form: a 4-byte little-endian byte-length prefix
/// followed by the UTF-8 bytes.
pub open spec fn spec_field_bytes(s: Seq<char>) -> Seq<u8> {
    spec_u32_to_le_bytes(encode_utf8(s).len() as u32) + encode_utf8(s)
}

/// The canonical byte form of a payload: the action id as 8 little-endian
/// bytes, then the three string fields in fixed order, then the owner key's
/// 32 raw bytes.
pub open spec fn spec_canonical_bytes(d: CreateNftData) -> Seq<u8> {
    spec_u64_to_le_bytes(d.action_id) + spec_field_bytes(d.token_name@) + spec_field_bytes(
        d.token_symbol@,
    ) + spec_field_bytes(d.token_uri@) + d.owner@
}

/// Appends one string field in canonical form; reports a field whose UTF-8
/// form overruns the 4-byte length prefix instead of appending anything.
fn push_field(out: &mut Vec<u8>, s: &str) -> (ok: bool)
    ensures
        ok ==> encode_utf8(s@).len() <= u32::MAX && final(out)@ == old(out)@ + spec_field_bytes(
            s@,
        ),
        !ok ==> encode_utf8(s@).len() > u32::MAX && *final(out) == *old(out),
{
    let b = s.as_bytes();
    if b.len() > u32::MAX as usize {
        return false;
    }
    let mut prefix = u32_to_le_bytes(b.len() as u32);
    out.append(&mut prefix);
    let mut body = slice_to_vec(b);
    out.append(&mut body);
    true
}

impl CreateNftData {
    /// Serializes the payload into its canonical byte form, or returns `None`
    /// exactly when some string field is too long for its length prefix.
    pub fn canonical_bytes(&self) -> (r: Option<Vec<u8>>)
        ensures
            match r {
                Some(v) => payload_encodable(*self) && v@ == spec_canonical_bytes(*self),
                None => !payload_encodable(*self),
            },
    {
        let mut out = u64_to_le_bytes(self.action_id);
        if !push_field(&mut out, self.token_name.as_str()) {
            return None;
        }
        if !push_field(&mut out, self.token_symbol.as_str()) {
            return None;
        }
        if !push_field(&mut out, self.token_uri.as_str()) {
            return None;
        }
        let mut tail = slice_to_vec(self.owner.as_slice());
        out.append(&mut tail);
        proof {
            assert(out@ =~= spec_canonical_bytes(*self));
        }
        Some(out)
    }
}

/// Splitting two equal concatenations at the same point yields equal parts.
proof fn lemma_concat_parts_equal(a1: Seq<u8>, b1: Seq<u8>, a2: Seq<u8>, b2: Seq<u8>)
    requires
        a1.len() == a2.len(),
        a1 + b1 == a2 + b2,
    ensures
        a1 == a2,
        b1 == b2,
{
    assert forall|i: int| 0 <= i < a1.len() implies a1[i] == a2[i] by {
        assert((a1 + b1)[i] == a1[i]);
        assert((a2 + b2)[i] == a2[i]);
    }
    assert(a1 =~= a2);
    assert((a1 + b1).len() == a1.len() + b1.len());
    assert((a2 + b2).len() == a2.len() + b2.len());
    assert(b1.len() == b2.len());
    assert forall|i: int| 0 <= i < b1.len() implies b1[i] == b2[i] by {
        assert((a1 + b1)[a1.len() + i] == b1[i]);
        assert((a2 + b2)[a2.len() + i] == b2[i]);
    }
    assert(b1 =~= b2);
}

/// A length-prefixed field followed by a remainder parses unambiguously.
proof fn lemma_field_bytes_parse(x: Seq<char>, y: Seq<char>, r1: Seq<u8>, r2: Seq<u8>)
    requires
        encode_utf8(x).len() <= u32::MAX,
        encode_utf8(y).len() <= u32::MAX,
        spec_field_bytes(x) + r1 == spec_field_bytes(y) + r2,
    ensures
        x == y,
        r1 == r2,
{
    let px = spec_u32_to_le_bytes(encode_utf8(x).len() as u32);
    let py = spec_u32_to_le_bytes(encode_utf8(y).len() as u32);
    vstd::bytes::lemma_auto_spec_u32_to_from_le_bytes();
    assert(spec_field_bytes(x) + r1 =~= px + (encode_utf8(x) + r1));
    assert(spec_field_bytes(y) + r2 =~= py + (encode_utf8(y) + r2));
    lemma_concat_parts_equal(px, encode_utf8(x) + r1, py, encode_utf8(y) + r2);
    assert(encode_utf8(x).len() == encode_utf8(y).len());
    lemma_concat_parts_equal(encode_utf8(x), r1, encode_utf8(y), r2);
    vstd::utf8::encode_utf8_decode_utf8(x);
    vstd::utf8::encode_utf8_decode_utf8(y);
}

/// Law: canonical serialization is unambiguous. Two payloads whose canonical
/// byte forms coincide agree in every logical field, so an authorization
/// signed over one payload can never be accepted for a different one.
pub proof fn lemma_canonical_bytes_injective(d1: CreateNftData, d2: CreateNftData)
    requires
        payload_encodable(d1),
        payload_encodable(d2),
        spec_canonical_bytes(d1) == spec_canonical_bytes(d2),
    ensures
        d1.action_id == d2.action_id,
        d1.token_name@ == d2.token_name@,
        d1.token_symbol@ == d2.token_symbol@,
        d1.token_uri@ == d2.token_uri@,
        d1.owner@ == d2.owner@,
{
    let a1 = spec_u64_to_le_bytes(d1.action_id);
    let a2 = spec_u64_to_le_bytes(d2.action_id);
    let rest1 = spec_field_bytes(d1.token_name@) + (spec_field_bytes(d1.token_symbol@)
        + (spec_field_bytes(d1.token_uri@) + d1.owner@));
    let rest2 = spec_field_bytes(d2.token_name@) + (spec_field_bytes(d2.token_symbol@)
        + (spec_field_bytes(d2.token_uri@) + d2.owner@));
    vstd::bytes::lemma_auto_spec_u64_to_from_le_bytes();
    assert(spec_canonical_bytes(d1) =~= a1 + rest1);
    assert(spec_canonical_bytes(d2) =~= a2 + rest2);
    lemma_concat_parts_equal(a1, rest1, a2, rest2);
    lemma_field_bytes_parse(
        d1.token_name@,
        d2.token_name@,
        spec_field_bytes(d1.token_symbol@) + (spec_field_bytes(d1.token_uri@) + d1.owner@),
        spec_field_bytes(d2.token_symbol@) + (spec_field_bytes(d2.token_uri@) + d2.owner@),
    );
    lemma_field_bytes_parse(
        d1.token_symbol@,
        d2.token_symbol@,
        spec_field_bytes(d1.token_uri@) + d1.owner@,
        spec_field_bytes(d2.token_uri@) + d2.owner@,
    );
    lemma_field_bytes_parse(d1.token_uri@, d2.token_uri@, d1.owner@, d2.owner@);
}

} // verus!
