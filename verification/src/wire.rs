//! The binary form of a position.
//!
//! A position is written field by field, in declaration order, each field as
//! a fixed-width little-endian `u64`: forty bytes in all, with no header and
//! no padding. This is the layout borsh gives a struct of five `u64` fields,
//! and the single words are written and read by borsh itself.

use crate::position::ShieldedPosition;
use vstd::bytes::{
    lemma_auto_spec_u64_to_from_le_bytes, spec_u64_from_le_bytes, spec_u64_to_le_bytes,
};
use vstd::prelude::*;
use vstd::slice::slice_subrange;

verus! {

/// Number of bytes one field occupies.
pub const WORD_LEN: usize = 8;

/// Number of bytes an encoded position occupies.
pub const ENCODED_LEN: usize = 40;

/// Why a byte string is not the encoding of a position.
#[derive(Debug, Clone, Copy, PartialEq, Eq, Structural)]
pub enum DecodeError {
    /// The input ends before the fifth field does.
    UnexpectedLength,
    /// All five fields were read and bytes are left over.
    NotAllBytesRead,
}

/// The word that starts at byte `offset` of `bytes`.
pub open spec fn word_at(bytes: Seq<u8>, offset: int) -> Seq<u8> {
    bytes.subrange(offset, offset + WORD_LEN)
}

/// The encoding of a position: its five fields, little-endian, in declaration
/// order.
pub open spec fn spec_encode(position: ShieldedPosition) -> Seq<u8> {
    spec_u64_to_le_bytes(position.owner_id)
        + spec_u64_to_le_bytes(position.collateral_value)
        + spec_u64_to_le_bytes(position.credit_score)
        + spec_u64_to_le_bytes(position.current_debt)
        + spec_u64_to_le_bytes(position.ltv_limit_percent)
}

/// What a byte string decodes to. Exactly the strings of [`ENCODED_LEN`] bytes
/// decode to a position; a shorter one is cut off and a longer one has bytes
/// left over.
pub open spec fn spec_decode(bytes: Seq<u8>) -> Result<ShieldedPosition, DecodeError> {
    if bytes.len() < ENCODED_LEN {
        Err(DecodeError::UnexpectedLength)
    } else if bytes.len() > ENCODED_LEN {
        Err(DecodeError::NotAllBytesRead)
    } else {
        Ok(
            ShieldedPosition {
                owner_id: spec_u64_from_le_bytes(word_at(bytes, 0)),
                collateral_value: spec_u64_from_le_bytes(word_at(bytes, 8)),
                credit_score: spec_u64_from_le_bytes(word_at(bytes, 16)),
                current_debt: spec_u64_from_le_bytes(word_at(bytes, 24)),
                ltv_limit_percent: spec_u64_from_le_bytes(word_at(bytes, 32)),
            },
        )
    }
}

/// `borsh::to_vec` on a `u64`.
///
/// Trusted: borsh writes an integer as the bytes of `to_le_bytes`, and
/// `to_vec` directs the write into a vector it has just made; appending to a
/// vector reports no error. So the result is always `Some`, of exactly the
/// eight little-endian bytes.
#[verifier::external_body]
fn borsh_u64_to_vec(value: u64) -> (word: Option<Vec<u8>>)
    ensures
        word is Some,
        word.unwrap()@ == spec_u64_to_le_bytes(value),
{
    borsh::to_vec(&value).ok()
}

/// `borsh::from_slice` at type `u64`.
///
/// Trusted: borsh reads eight bytes and returns their `from_le_bytes`; it
/// fails when fewer than eight are there, and `from_slice` also fails when
/// any are left unread. So the result is `Some` exactly for a slice of eight
/// bytes, and then it is their little-endian value.
#[verifier::external_body]
fn borsh_u64_from_slice(word: &[u8]) -> (value: Option<u64>)
    ensures
        value == (if word@.len() == WORD_LEN {
            Some(spec_u64_from_le_bytes(word@))
        } else {
            None
        }),
{
    borsh::from_slice::<u64>(word).ok()
}

/// Appends the encoding of one field to `out`.
fn put_u64(out: &mut Vec<u8>, value: u64)
    ensures
        final(out)@ == old(out)@ + spec_u64_to_le_bytes(value),
{
    // `borsh_u64_to_vec` never returns `None`, so nothing is ever skipped.
    if let Some(mut word) = borsh_u64_to_vec(value) {
        out.append(&mut word);
    }
}

/// Reads the field that starts at `offset`, or `None` when fewer than
/// [`WORD_LEN`] bytes are left there.
fn take_u64(bytes: &[u8], offset: usize) -> (value: Option<u64>)
    requires
        offset <= bytes@.len(),
    ensures
        value == (if bytes@.len() - offset >= WORD_LEN {
            Some(spec_u64_from_le_bytes(word_at(bytes@, offset as int)))
        } else {
            None
        }),
{
    if bytes.len() - offset < WORD_LEN {
        return None;
    }
    borsh_u64_from_slice(slice_subrange(bytes, offset, offset + WORD_LEN))
}

impl ShieldedPosition {
    /// Encodes the position into its forty bytes.
    pub fn encode(&self) -> (bytes: Vec<u8>)
        ensures
            bytes@ == spec_encode(*self),
            bytes@.len() == ENCODED_LEN,
    {
        let mut bytes: Vec<u8> = Vec::with_capacity(ENCODED_LEN);
        put_u64(&mut bytes, self.owner_id);
        put_u64(&mut bytes, self.collateral_value);
        put_u64(&mut bytes, self.credit_score);
        put_u64(&mut bytes, self.current_debt);
        put_u64(&mut bytes, self.ltv_limit_percent);
        proof {
            lemma_encoded_len(*self);
        }
        bytes
    }

    /// Decodes a position from `bytes`, which must hold one encoding and
    /// nothing else.
    ///
    /// The fields are read in order. Input that runs out first is
    /// [`DecodeError::UnexpectedLength`]; input that goes on after the fifth
    /// field is [`DecodeError::NotAllBytesRead`]. No field value is rejected.
    pub fn decode(bytes: &[u8]) -> (decoded: Result<ShieldedPosition, DecodeError>)
        ensures
            decoded == spec_decode(bytes@),
    {
        let owner_id: u64 = match take_u64(bytes, 0) {
            Some(value) => value,
            None => return Err(DecodeError::UnexpectedLength),
        };
        let collateral_value: u64 = match take_u64(bytes, 8) {
            Some(value) => value,
            None => return Err(DecodeError::UnexpectedLength),
        };
        let credit_score: u64 = match take_u64(bytes, 16) {
            Some(value) => value,
            None => return Err(DecodeError::UnexpectedLength),
        };
        let current_debt: u64 = match take_u64(bytes, 24) {
            Some(value) => value,
            None => return Err(DecodeError::UnexpectedLength),
        };
        let ltv_limit_percent: u64 = match take_u64(bytes, 32) {
            Some(value) => value,
            None => return Err(DecodeError::UnexpectedLength),
        };
        if bytes.len() != ENCODED_LEN {
            return Err(DecodeError::NotAllBytesRead);
        }
        Ok(
            ShieldedPosition {
                owner_id,
                collateral_value,
                credit_score,
                current_debt,
                ltv_limit_percent,
            },
        )
    }
}

/// Every encoding is [`ENCODED_LEN`] bytes long.
pub proof fn lemma_encoded_len(position: ShieldedPosition)
    ensures
        spec_encode(position).len() == ENCODED_LEN,
{
    lemma_auto_spec_u64_to_from_le_bytes();
}

/// Round trip: decoding the encoding of a position gives that position back,
/// all five fields.
pub proof fn lemma_decode_encode(position: ShieldedPosition)
    ensures
        spec_decode(spec_encode(position)) == Ok::<ShieldedPosition, DecodeError>(position),
{
    lemma_auto_spec_u64_to_from_le_bytes();
    let bytes = spec_encode(position);
    assert(word_at(bytes, 0) == spec_u64_to_le_bytes(position.owner_id));
    assert(word_at(bytes, 8) == spec_u64_to_le_bytes(position.collateral_value));
    assert(word_at(bytes, 16) == spec_u64_to_le_bytes(position.credit_score));
    assert(word_at(bytes, 24) == spec_u64_to_le_bytes(position.current_debt));
    assert(word_at(bytes, 32) == spec_u64_to_le_bytes(position.ltv_limit_percent));
}

/// The encoding is canonical: a byte string that decodes to a position is the
/// encoding of that position.
pub proof fn lemma_encode_decode(bytes: Seq<u8>)
    requires
        spec_decode(bytes) is Ok,
    ensures
        spec_encode(spec_decode(bytes).unwrap()) == bytes,
{
    lemma_auto_spec_u64_to_from_le_bytes();
    assert(bytes == word_at(bytes, 0) + word_at(bytes, 8) + word_at(bytes, 16) + word_at(bytes, 24)
        + word_at(bytes, 32));
}

} // verus!
