//! The harness's read-only mirror of the remote escrow account: the record
//! layout as stored on the ledger, and a verified decoder for fetched raw
//! account bytes.

use vstd::prelude::*;
use vstd::slice::{slice_subrange, slice_to_vec};
use crate::address::Address;
use crate::codec::record_tag;
use crate::codec::record_tag_of;

verus! {

/// A read-only mirror of the remote escrow account's state. The remote
/// system owns and mutates it; the harness only observes it by fetching and
/// decoding raw account bytes.
pub struct EscrowAccount {
    pub seller: Address,
    pub buyer: Address,
    /// UTF-8 bytes of the subscription identifier.
    pub subscription_id: Vec<u8>,
    pub payment_count: u8,
    pub total_amount: u64,
    pub is_active: bool,
    pub validation_threshold: u64,
}

/// Decoding raw account bytes failed.
#[derive(Debug, PartialEq, Eq, Structural)]
pub enum DecodeError {
    /// The data ends before the record does.
    TooShort,
    /// The leading 8-byte record tag is not the escrow record's tag.
    WrongRecordTag,
    /// The byte standing for `is_active` is neither 0 nor 1.
    InvalidBooleanByte,
}

/// The UTF-8 bytes of "EscrowAccount", the stored record's name.
pub open spec fn escrow_account_name() -> Seq<u8> {
    seq![69u8, 115u8, 99u8, 114u8, 111u8, 119u8, 65u8, 99u8, 99u8, 111u8, 117u8, 110u8, 116u8]
}

/// The 8-byte tag that begins every stored escrow record.
pub open spec fn escrow_record_tag() -> Seq<u8> {
    record_tag_of(escrow_account_name())
}

/// The value of 4 little-endian bytes.
pub open spec fn le4(s: Seq<u8>) -> int {
    s[0] + s[1] * 256 + s[2] * 65536 + s[3] * 16777216
}

/// The value of 8 little-endian bytes.
pub open spec fn le8(s: Seq<u8>) -> int {
    s[0] + s[1] * 256 + s[2] * 65536 + s[3] * 16777216 + s[4] * 4294967296 + s[5]
        * 1099511627776 + s[6] * 281474976710656 + s[7] * 72057594037927936
}

/// The subscription identifier's length, read from the record's length
/// prefix.
pub open spec fn escrow_id_len(data: Seq<u8>) -> int {
    le4(data.subrange(72, 76))
}

/// Whether raw account bytes hold a well-formed escrow record: the record
/// tag, two 32-byte addresses, a length-prefixed identifier, the payment
/// counter, the escrowed total, a boolean byte and the validation threshold,
/// in that order. Trailing bytes are tolerated, as stored accounts are
/// zero-padded.
pub open spec fn escrow_bytes_wf(data: Seq<u8>) -> bool {
    &&& data.len() >= 94
    &&& data.subrange(0, 8) == escrow_record_tag()
    &&& data.len() >= 94 + escrow_id_len(data)
    &&& (data[85 + escrow_id_len(data)] == 0 || data[85 + escrow_id_len(data)] == 1)
}

/// Whether a decoded view mirrors the record held in the bytes.
pub open spec fn escrow_fields_ok(acc: EscrowAccount, data: Seq<u8>) -> bool {
    let l = escrow_id_len(data);
    &&& acc.seller@ == data.subrange(8, 40)
    &&& acc.buyer@ == data.subrange(40, 72)
    &&& acc.subscription_id@ == data.subrange(76, 76 + l)
    &&& acc.payment_count == data[76 + l]
    &&& acc.total_amount == le8(data.subrange(77 + l, 85 + l))
    &&& acc.is_active == (data[85 + l] == 1)
    &&& acc.validation_threshold == le8(data.subrange(86 + l, 94 + l))
}

/// The error a malformed record decodes to.
pub open spec fn escrow_decode_error(data: Seq<u8>) -> DecodeError
    recommends
        !escrow_bytes_wf(data),
{
    if data.len() < 8 {
        DecodeError::TooShort
    } else if data.subrange(0, 8) != escrow_record_tag() {
        DecodeError::WrongRecordTag
    } else if data.len() < 94 || data.len() < 94 + escrow_id_len(data) {
        DecodeError::TooShort
    } else {
        DecodeError::InvalidBooleanByte
    }
}

/// Reads the 32-bit little-endian value at `off`.
fn read_u32_le(data: &Vec<u8>, off: usize) -> (r: u32)
    requires
        off + 4 <= data@.len(),
    ensures
        r == le4(data@.subrange(off as int, off + 4)),
{
    // Calling len ties the view's length to the machine range, so the offset
    // sums below cannot overflow.
    let _n: usize = data.len();
    let r = (data[off] as u32) + (data[off + 1] as u32) * 256 + (data[off + 2] as u32) * 65536 + (
    data[off + 3] as u32) * 16777216;
    proof {
        let s = data@.subrange(off as int, off + 4);
        assert(s[0] == data@[off as int] && s[1] == data@[off + 1] && s[2] == data@[off + 2] && s[3]
            == data@[off + 3]);
    }
    r
}

/// Reads the 64-bit little-endian value at `off`.
fn read_u64_le(data: &Vec<u8>, off: usize) -> (r: u64)
    requires
        off + 8 <= data@.len(),
    ensures
        r == le8(data@.subrange(off as int, off + 8)),
{
    // Calling len ties the view's length to the machine range, so the offset
    // sums below cannot overflow.
    let _n: usize = data.len();
    let r = (data[off] as u64) + (data[off + 1] as u64) * 256 + (data[off + 2] as u64) * 65536 + (
    data[off + 3] as u64) * 16777216 + (data[off + 4] as u64) * 4294967296 + (data[off + 5] as u64)
        * 1099511627776 + (data[off + 6] as u64) * 281474976710656 + (data[off + 7] as u64)
        * 72057594037927936;
    proof {
        let s = data@.subrange(off as int, off + 8);
        assert(s[0] == data@[off as int] && s[1] == data@[off + 1] && s[2] == data@[off + 2] && s[3]
            == data@[off + 3] && s[4] == data@[off + 4] && s[5] == data@[off + 5] && s[6] == data@[
        off + 6] && s[7] == data@[off + 7]);
    }
    r
}

/// Reads the 32-byte address at `off`.
fn read_address(data: &Vec<u8>, off: usize) -> (r: Address)
    requires
        off + 32 <= data@.len(),
    ensures
        r@ == data@.subrange(off as int, off + 32),
{
    let n = data.len();
    let mut bytes: [u8; 32] = vstd::array::array_fill_for_copy_types::<u8, 32>(0);
    let mut i: usize = 0;
    while i < 32
        invariant
            0 <= i <= 32,
            off + 32 <= n == data@.len(),
            forall|k: int| 0 <= k < i ==> bytes@[k] == data@[off + k],
        decreases 32 - i,
    {
        bytes[i] = data[off + i];
        i = i + 1;
    }
    proof {
        assert(bytes@ =~= data@.subrange(off as int, off + 32));
    }
    Address { bytes }
}

/// Returns the 8-byte tag that begins every stored escrow record.
pub fn escrow_record_tag_bytes() -> (r: Vec<u8>)
    ensures
        r@ == escrow_record_tag(),
        r@.len() == 8,
{
    let mut name: Vec<u8> = Vec::new();
    name.push(69);
    name.push(115);
    name.push(99);
    name.push(114);
    name.push(111);
    name.push(119);
    name.push(65);
    name.push(99);
    name.push(99);
    name.push(111);
    name.push(117);
    name.push(110);
    name.push(116);
    proof {
        assert(name@ =~= escrow_account_name());
    }
    record_tag(&name)
}

/// Decodes fetched raw account bytes into the escrow account view. Succeeds
/// exactly on well-formed records and returns each field as held in the
/// bytes.
pub fn decode_escrow_account(data: &Vec<u8>) -> (r: Result<EscrowAccount, DecodeError>)
    ensures
        r is Ok <==> escrow_bytes_wf(data@),
        (r matches Ok(acc) ==> escrow_fields_ok(acc, data@)),
        (r matches Err(e) ==> e == escrow_decode_error(data@)),
{
    if data.len() < 8 {
        return Err(DecodeError::TooShort);
    }
    let tag = escrow_record_tag_bytes();
    let mut k: usize = 0;
    while k < 8
        invariant
            0 <= k <= 8,
            data@.len() >= 8,
            tag@ == escrow_record_tag(),
            tag@.len() == 8,
            forall|j: int| 0 <= j < k ==> data@[j] == tag@[j],
        decreases 8 - k,
    {
        if data[k] != tag[k] {
            proof {
                assert(data@.subrange(0, 8)[k as int] != escrow_record_tag()[k as int]);
            }
            return Err(DecodeError::WrongRecordTag);
        }
        k = k + 1;
    }
    proof {
        assert(data@.subrange(0, 8) =~= escrow_record_tag());
    }
    if data.len() < 94 {
        return Err(DecodeError::TooShort);
    }
    let id_len = read_u32_le(data, 72) as usize;
    if data.len() - 94 < id_len {
        return Err(DecodeError::TooShort);
    }
    let seller = read_address(data, 8);
    let buyer = read_address(data, 40);
    let subscription_id = slice_to_vec(slice_subrange(data.as_slice(), 76, 76 + id_len));
    let payment_count = data[76 + id_len];
    let total_amount = read_u64_le(data, 77 + id_len);
    let active_byte = data[85 + id_len];
    if active_byte > 1 {
        return Err(DecodeError::InvalidBooleanByte);
    }
    let validation_threshold = read_u64_le(data, 86 + id_len);
    Ok(
        EscrowAccount {
            seller,
            buyer,
            subscription_id,
            payment_count,
            total_amount,
            is_active: active_byte == 1,
            validation_threshold,
        },
    )
}

/// Serialized length of an escrow record's fields, without the leading
/// record tag: two 32-byte addresses, the identifier's 4-byte length prefix
/// and bytes, the 1-byte counter, the 8-byte total, the 1-byte flag and the
/// 8-byte threshold. The remote system sizes a fresh account's storage by
/// this length.
pub fn escrow_record_encoded_len(id_len: usize) -> (r: usize)
    requires
        id_len <= usize::MAX - 86,
    ensures
        r == 86 + id_len,
{
    86 + id_len
}

/// Law: reading back the 8 little-endian bytes of a 64-bit value yields the
/// value itself; the record reader inverts the call encoder on every 64-bit
/// field.
pub proof fn lemma_u64_le_roundtrip(v: u64)
    ensures
        le8(crate::codec::u64_le_bytes(v)) == v,
{
    let x = v as int;
    let q1 = x / 256;
    let q2 = x / 65536;
    let q3 = x / 16777216;
    let q4 = x / 4294967296;
    let q5 = x / 1099511627776;
    let q6 = x / 281474976710656;
    let q7 = x / 72057594037927936;
    vstd::arithmetic::div_mod::lemma_div_denominator(x, 256, 256);
    vstd::arithmetic::div_mod::lemma_div_denominator(x, 65536, 256);
    vstd::arithmetic::div_mod::lemma_div_denominator(x, 16777216, 256);
    vstd::arithmetic::div_mod::lemma_div_denominator(x, 4294967296, 256);
    vstd::arithmetic::div_mod::lemma_div_denominator(x, 1099511627776, 256);
    vstd::arithmetic::div_mod::lemma_div_denominator(x, 281474976710656, 256);
    assert(q1 / 256 == q2 && q2 / 256 == q3 && q3 / 256 == q4 && q4 / 256 == q5 && q5 / 256 == q6
        && q6 / 256 == q7);
    vstd::arithmetic::div_mod::lemma_fundamental_div_mod(x, 256);
    vstd::arithmetic::div_mod::lemma_fundamental_div_mod(q1, 256);
    vstd::arithmetic::div_mod::lemma_fundamental_div_mod(q2, 256);
    vstd::arithmetic::div_mod::lemma_fundamental_div_mod(q3, 256);
    vstd::arithmetic::div_mod::lemma_fundamental_div_mod(q4, 256);
    vstd::arithmetic::div_mod::lemma_fundamental_div_mod(q5, 256);
    vstd::arithmetic::div_mod::lemma_fundamental_div_mod(q6, 256);
    vstd::arithmetic::div_mod::lemma_fundamental_div_mod(x, 72057594037927936);
    vstd::arithmetic::div_mod::lemma_div_pos_is_pos(x, 72057594037927936);
    assert(q7 < 256) by (nonlinear_arith)
        requires
            x == 72057594037927936 * q7 + x % 72057594037927936,
            0 <= x % 72057594037927936,
            0 <= x < 18446744073709551616,
            0 <= q7,
    ;
    assert(q7 % 256 == q7) by {
        vstd::arithmetic::div_mod::lemma_small_mod(q7 as nat, 256);
    }
    assert(le8(crate::codec::u64_le_bytes(v)) == (x % 256) + (q1 % 256) * 256 + (q2 % 256) * 65536
        + (q3 % 256) * 16777216 + (q4 % 256) * 4294967296 + (q5 % 256) * 1099511627776 + (q6 % 256)
        * 281474976710656 + (q7 % 256) * 72057594037927936);
    assert((x % 256) + (q1 % 256) * 256 + (q2 % 256) * 65536 + (q3 % 256) * 16777216 + (q4 % 256)
        * 4294967296 + (q5 % 256) * 1099511627776 + (q6 % 256) * 281474976710656 + q7
        * 72057594037927936 == x) by (nonlinear_arith)
        requires
            x == 256 * q1 + x % 256,
            q1 == 256 * (q1 / 256) + q1 % 256,
            q2 == 256 * (q2 / 256) + q2 % 256,
            q3 == 256 * (q3 / 256) + q3 % 256,
            q4 == 256 * (q4 / 256) + q4 % 256,
            q5 == 256 * (q5 / 256) + q5 % 256,
            q6 == 256 * (q6 / 256) + q6 % 256,
            q1 / 256 == q2,
            q2 / 256 == q3,
            q3 / 256 == q4,
            q4 / 256 == q5,
            q5 / 256 == q6,
            q6 / 256 == q7,
    ;
}

} // verus!
