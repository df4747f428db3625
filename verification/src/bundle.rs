//! Decoding of the signature-verification operation's binary payload.
//!
//! The wire format, produced by the signature-verification primitive, is:
//! byte 0 is the record count `n`, byte 1 is padding, bytes 2..6 hold two
//! 16-bit fields of the first descriptor that this decoder skips. From byte 6
//! on, the descriptor walk reads for each record a 2-byte little-endian
//! offset to a 32-byte signer key (consuming 4 bytes, including an adjacent
//! 2-byte field it ignores), a 2-byte little-endian message offset, and a
//! 2-byte little-endian message length, advancing 6 bytes per record. All
//! offsets are absolute into the full buffer. No cryptographic check happens
//! here; this is format-level decoding only.

use vstd::prelude::*;

use crate::error::ErrorCode;

verus! {

/// One decoded signature record: the signer's 32-byte public key and the
/// signed message, both copied out of the bundle buffer.
#[derive(Debug)]
pub struct SignatureRecord {
    pub signer: Vec<u8>,
    pub message: Vec<u8>,
}

/// The pair of byte sequences a [`SignatureRecord`] stands for.
pub open spec fn record_view(r: SignatureRecord) -> (Seq<u8>, Seq<u8>) {
    (r.signer@, r.message@)
}

/// The 16-bit little-endian integer at position `i`.
pub open spec fn le16(d: Seq<u8>, i: int) -> int {
    d[i] + 256 * d[i + 1]
}

/// Start of record `k`'s descriptor in the bundle.
pub open spec fn desc_base(k: int) -> int {
    6 + 6 * k
}

/// Whether record `k`'s whole descriptor lies inside the buffer.
pub open spec fn desc_in_bounds(d: Seq<u8>, k: int) -> bool {
    desc_base(k) + 8 <= d.len()
}

/// Absolute offset of record `k`'s 32-byte signer key.
pub open spec fn signer_offset(d: Seq<u8>, k: int) -> int {
    le16(d, desc_base(k))
}

/// Absolute offset of record `k`'s message.
pub open spec fn message_offset(d: Seq<u8>, k: int) -> int {
    le16(d, desc_base(k) + 4)
}

/// Length of record `k`'s message.
pub open spec fn message_len(d: Seq<u8>, k: int) -> int {
    le16(d, desc_base(k) + 6)
}

/// Whether record `k`'s signer slice lies inside the buffer.
pub open spec fn signer_in_bounds(d: Seq<u8>, k: int) -> bool {
    signer_offset(d, k) + 32 <= d.len()
}

/// Whether record `k`'s message slice lies inside the buffer.
pub open spec fn message_in_bounds(d: Seq<u8>, k: int) -> bool {
    message_offset(d, k) + message_len(d, k) <= d.len()
}

/// Record `k`'s signer key bytes.
pub open spec fn record_signer(d: Seq<u8>, k: int) -> Seq<u8> {
    d.subrange(signer_offset(d, k), signer_offset(d, k) + 32)
}

/// Record `k`'s message bytes.
pub open spec fn record_message(d: Seq<u8>, k: int) -> Seq<u8> {
    d.subrange(message_offset(d, k), message_offset(d, k) + message_len(d, k))
}

/// Decoding of the first `k` records, in walk order: the first record whose
/// descriptor does not fit fails with `MalformedBundle`, the first whose
/// signer or message slice reads past the buffer end fails with
/// `OffsetOutOfBounds`.
pub open spec fn decode_records(d: Seq<u8>, k: nat) -> Result<Seq<(Seq<u8>, Seq<u8>)>, ErrorCode>
    decreases k,
{
    if k == 0 {
        Ok(Seq::empty())
    } else {
        let j = k - 1;
        match decode_records(d, (k - 1) as nat) {
            Err(e) => Err(e),
            Ok(rs) => {
                if !desc_in_bounds(d, j) {
                    Err(ErrorCode::MalformedBundle)
                } else if !signer_in_bounds(d, j) {
                    Err(ErrorCode::OffsetOutOfBounds)
                } else if !message_in_bounds(d, j) {
                    Err(ErrorCode::OffsetOutOfBounds)
                } else {
                    Ok(rs.push((record_signer(d, j), record_message(d, j))))
                }
            },
        }
    }
}

/// What decoding a whole bundle yields: the header must be present, the
/// record count must be at least one, and every declared record must resolve.
pub open spec fn decode_spec(d: Seq<u8>) -> Result<Seq<(Seq<u8>, Seq<u8>)>, ErrorCode> {
    if d.len() < 2 {
        Err(ErrorCode::InvalidEd25519Instruction)
    } else if d[0] == 0 {
        Err(ErrorCode::NoSignatures)
    } else {
        decode_records(d, d[0] as nat)
    }
}

/// A bundle that decodes without error.
pub open spec fn bundle_ok(d: Seq<u8>) -> bool {
    decode_spec(d) is Ok
}

/// An error among the first `m` records is the error of every longer walk.
proof fn lemma_decode_records_err_persists(d: Seq<u8>, m: nat, n: nat)
    requires
        m <= n,
        decode_records(d, m) is Err,
    ensures
        decode_records(d, n) == decode_records(d, m),
    decreases n,
{
    if m < n {
        lemma_decode_records_err_persists(d, m, (n - 1) as nat);
    }
}

/// Relies on byteorder's `LittleEndian::read_u16`: it returns the two bytes
/// at `at` as a little-endian 16-bit integer (it panics on a buffer shorter
/// than two bytes, which the precondition rules out).
#[verifier::external_body]
fn read_u16_le(d: &[u8], at: usize) -> (r: u16)
    requires
        at + 2 <= d@.len(),
    ensures
        r as int == le16(d@, at as int),
{
    <byteorder::LittleEndian as byteorder::ByteOrder>::read_u16(&d[at..at + 2])
}

/// Copies `d[start..start + len]` into a fresh vector.
fn copy_range(d: &[u8], start: usize, len: usize) -> (r: Vec<u8>)
    requires
        start + len <= d@.len(),
    ensures
        r@ == d@.subrange(start as int, start as int + len as int),
{
    let dl = d.len();
    let mut out: Vec<u8> = Vec::new();
    let mut i: usize = 0;
    while i < len
        invariant
            start + len <= dl == d@.len(),
            i <= len,
            out@ == d@.subrange(start as int, start as int + i as int),
        decreases len - i,
    {
        out.push(d[start + i]);
        i += 1;
        proof {
            assert(out@ =~= d@.subrange(start as int, start as int + i as int));
        }
    }
    out
}

/// Decodes a raw signature bundle into its records.
///
/// Succeeds exactly on the bundles [`decode_spec`] accepts, returning one
/// record per declared descriptor, in walk order; fails with
/// `InvalidEd25519Instruction` on a buffer too short for the header, with
/// `NoSignatures` on a record count of zero, with `MalformedBundle` on a
/// buffer too short for a declared descriptor, and with `OffsetOutOfBounds`
/// on a signer or message slice that would read past the buffer end.
pub fn decode_bundle(data: &[u8]) -> (r: Result<Vec<SignatureRecord>, ErrorCode>)
    ensures
        match r {
            Ok(records) => decode_spec(data@) == Ok::<_, ErrorCode>(
                records@.map_values(|rec: SignatureRecord| record_view(rec)),
            ) && records@.len() == data@[0] as int,
            Err(e) => decode_spec(data@) == Err::<Seq<(Seq<u8>, Seq<u8>)>, _>(e),
        },
{
    if data.len() < 2 {
        return Err(ErrorCode::InvalidEd25519Instruction);
    }
    let n = data[0];
    if n == 0 {
        return Err(ErrorCode::NoSignatures);
    }
    let mut records: Vec<SignatureRecord> = Vec::new();
    proof {
        assert(records@.map_values(|rec: SignatureRecord| record_view(rec)) =~= Seq::<
            (Seq<u8>, Seq<u8>),
        >::empty());
    }
    let mut k: usize = 0;
    while k < n as usize
        invariant
            2 <= data@.len(),
            n == data@[0],
            n > 0,
            k <= n as usize,
            decode_records(data@, k as nat) == Ok::<_, ErrorCode>(
                records@.map_values(|rec: SignatureRecord| record_view(rec)),
            ),
            records@.len() == k,
        decreases n as int - k,
    {
        let base: usize = 6 + 6 * k;
        if data.len() < base + 8 {
            proof {
                assert(decode_records(data@, (k + 1) as nat) == Err::<Seq<(Seq<u8>, Seq<u8>)>, _>(
                    ErrorCode::MalformedBundle,
                ));
                lemma_decode_records_err_persists(data@, (k + 1) as nat, n as nat);
            }
            return Err(ErrorCode::MalformedBundle);
        }
        let s_off = read_u16_le(data, base) as usize;
        let m_off = read_u16_le(data, base + 4) as usize;
        let m_len = read_u16_le(data, base + 6) as usize;
        if data.len() < s_off + 32 {
            proof {
                assert(decode_records(data@, (k + 1) as nat) == Err::<Seq<(Seq<u8>, Seq<u8>)>, _>(
                    ErrorCode::OffsetOutOfBounds,
                ));
                lemma_decode_records_err_persists(data@, (k + 1) as nat, n as nat);
            }
            return Err(ErrorCode::OffsetOutOfBounds);
        }
        if data.len() < m_off + m_len {
            proof {
                assert(decode_records(data@, (k + 1) as nat) == Err::<Seq<(Seq<u8>, Seq<u8>)>, _>(
                    ErrorCode::OffsetOutOfBounds,
                ));
                lemma_decode_records_err_persists(data@, (k + 1) as nat, n as nat);
            }
            return Err(ErrorCode::OffsetOutOfBounds);
        }
        let signer = copy_range(data, s_off, 32);
        let message = copy_range(data, m_off, m_len);
        records.push(SignatureRecord { signer, message });
        k += 1;
        proof {
            assert(records@.map_values(|rec: SignatureRecord| record_view(rec)) =~= decode_records(
                data@,
                k as nat,
            )->Ok_0);
        }
    }
    Ok(records)
}

} // verus!
