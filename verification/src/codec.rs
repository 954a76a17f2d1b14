//! The fixed byte layout of a participant's record.
//!
//! A record is stored as 32 bytes: its four fields in the order
//! `locked_pledge_tokens`, `solhit_rewards`, `lock_start_time`,
//! `vesting_end_time`, each as eight little-endian bytes. There is no header
//! and no padding.

use vstd::prelude::*;
use vstd::bytes::{
    lemma_auto_spec_u64_to_from_le_bytes,
    spec_u64_from_le_bytes,
    spec_u64_to_le_bytes,
    spec_u64_to_le_bytes_to_open,
};
use vstd::slice::slice_subrange;
use crate::error::PledgeError;
use crate::state::UserState;

verus! {

/// Number of bytes that a record takes.
pub const USER_STATE_LEN: usize = 32;

/// The eight bytes of `bytes` that start at `offset`, read as a little-endian number.
pub open spec fn field_at(bytes: Seq<u8>, offset: int) -> u64 {
    spec_u64_from_le_bytes(bytes.subrange(offset, offset + 8))
}

impl UserState {
    /// The 32 bytes that stand for this record.
    pub open spec fn wire(self) -> Seq<u8> {
        spec_u64_to_le_bytes(self.locked_pledge_tokens) + spec_u64_to_le_bytes(self.solhit_rewards)
            + spec_u64_to_le_bytes(self.lock_start_time) + spec_u64_to_le_bytes(
            self.vesting_end_time,
        )
    }

    /// The record that the first 32 bytes of `bytes` stand for.
    pub open spec fn from_wire(bytes: Seq<u8>) -> UserState
        recommends
            bytes.len() >= 32,
    {
        UserState {
            locked_pledge_tokens: field_at(bytes, 0),
            solhit_rewards: field_at(bytes, 8),
            lock_start_time: field_at(bytes, 16),
            vesting_end_time: field_at(bytes, 24),
        }
    }
}

/// Appends the borsh form of `value` to `out`, by borsh's
/// `BorshSerialize::serialize` for `u64` with a `Vec<u8>` as the writer.
/// Borsh writes the eight little-endian bytes of the number, and writing to a
/// vector appends and cannot fail, so nothing is returned.
#[verifier::external_body]
fn borsh_write_u64(value: u64, out: &mut Vec<u8>)
    ensures
        final(out)@ == old(out)@ + spec_u64_to_le_bytes(value),
{
    let _ = borsh::BorshSerialize::serialize(&value, out);
}

/// Reads a number from the front of `bytes`, by borsh's
/// `BorshDeserialize::deserialize` for `u64`. Borsh takes the first eight
/// bytes as a little-endian number and fails when fewer than eight are there;
/// bytes behind the first eight are not looked at.
#[verifier::external_body]
fn borsh_read_u64(bytes: &[u8]) -> (value: Option<u64>)
    ensures
        value is Some <==> bytes@.len() >= 8,
        value is Some ==> value->0 == spec_u64_from_le_bytes(bytes@.subrange(0, 8)),
{
    let mut rest: &[u8] = bytes;
    let read: Result<u64, borsh::io::Error> = borsh::BorshDeserialize::deserialize(&mut rest);
    read.ok()
}

/// Reads the field that starts at `offset`, or fails when fewer than eight
/// bytes follow `offset`.
fn read_field(buf: &[u8], offset: usize) -> (value: Result<u64, PledgeError>)
    ensures
        value is Ok <==> buf@.len() - offset >= 8,
        value matches Ok(v) ==> v == field_at(buf@, offset as int),
        value matches Err(e) ==> e == PledgeError::DecodeError,
{
    if offset > buf.len() {
        return Err(PledgeError::DecodeError);
    }
    let rest = slice_subrange(buf, offset, buf.len());
    match borsh_read_u64(rest) {
        Some(v) => {
            assert(rest@.subrange(0, 8) =~= buf@.subrange(offset as int, offset + 8));
            Ok(v)
        },
        None => Err(PledgeError::DecodeError),
    }
}

impl UserState {
    /// Appends the 32 bytes of this record to `writer`.
    pub fn serialize(&self, writer: &mut Vec<u8>)
        ensures
            final(writer)@ == old(writer)@ + self.wire(),
    {
        borsh_write_u64(self.locked_pledge_tokens, writer);
        borsh_write_u64(self.solhit_rewards, writer);
        borsh_write_u64(self.lock_start_time, writer);
        borsh_write_u64(self.vesting_end_time, writer);
        assert(writer@ =~= old(writer)@ + self.wire());
    }

    /// Reads a record from the front of `buf`. This succeeds exactly when
    /// `buf` holds at least 32 bytes; what follows them is not looked at.
    pub fn deserialize(buf: &[u8]) -> (state: Result<UserState, PledgeError>)
        ensures
            state is Ok <==> buf@.len() >= 32,
            state matches Ok(s) ==> s == UserState::from_wire(buf@),
            state matches Err(e) ==> e == PledgeError::DecodeError,
    {
        let locked_pledge_tokens = read_field(buf, 0)?;
        let solhit_rewards = read_field(buf, 8)?;
        let lock_start_time = read_field(buf, 16)?;
        let vesting_end_time = read_field(buf, 24)?;
        Ok(UserState { locked_pledge_tokens, solhit_rewards, lock_start_time, vesting_end_time })
    }

    /// Reads a record from `v`. This succeeds exactly when `v` holds 32 bytes:
    /// a shorter or longer buffer is rejected, never cut or filled up.
    pub fn try_from_slice(v: &[u8]) -> (state: Result<UserState, PledgeError>)
        ensures
            state is Ok <==> v@.len() == 32,
            state matches Ok(s) ==> s == UserState::from_wire(v@) && s.wire() == v@,
            state matches Err(e) ==> e == PledgeError::DecodeError,
    {
        let state = UserState::deserialize(v)?;
        if v.len() != USER_STATE_LEN {
            return Err(PledgeError::DecodeError);
        }
        proof {
            lemma_encode_decode(v@);
        }
        Ok(state)
    }
}

/// The 32 bytes of `user_state` in a vector of their own.
pub fn serialize_user_state(user_state: &UserState) -> (bytes: Vec<u8>)
    ensures
        bytes@ == user_state.wire(),
        bytes@.len() == 32,
{
    let mut buf: Vec<u8> = Vec::new();
    user_state.serialize(&mut buf);
    proof {
        lemma_wire_len(*user_state);
        assert(buf@ =~= user_state.wire());
    }
    buf
}

/// The byte form of every record is 32 bytes long.
pub proof fn lemma_wire_len(state: UserState)
    ensures
        state.wire().len() == 32,
{
    lemma_auto_spec_u64_to_from_le_bytes();
}

/// Writing a record and reading it back gives the record again.
pub proof fn lemma_decode_encode(state: UserState)
    ensures
        UserState::from_wire(state.wire()) == state,
{
    lemma_auto_spec_u64_to_from_le_bytes();
    let w = state.wire();
    assert(w.subrange(0, 8) =~= spec_u64_to_le_bytes(state.locked_pledge_tokens));
    assert(w.subrange(8, 16) =~= spec_u64_to_le_bytes(state.solhit_rewards));
    assert(w.subrange(16, 24) =~= spec_u64_to_le_bytes(state.lock_start_time));
    assert(w.subrange(24, 32) =~= spec_u64_to_le_bytes(state.vesting_end_time));
}

/// Reading a record from 32 bytes and writing it gives the same 32 bytes.
pub proof fn lemma_encode_decode(bytes: Seq<u8>)
    requires
        bytes.len() == 32,
    ensures
        UserState::from_wire(bytes).wire() == bytes,
{
    lemma_auto_spec_u64_to_from_le_bytes();
    let a = bytes.subrange(0, 8);
    let b = bytes.subrange(8, 16);
    let c = bytes.subrange(16, 24);
    let d = bytes.subrange(24, 32);
    assert(spec_u64_to_le_bytes(spec_u64_from_le_bytes(a)) == a);
    assert(spec_u64_to_le_bytes(spec_u64_from_le_bytes(b)) == b);
    assert(spec_u64_to_le_bytes(spec_u64_from_le_bytes(c)) == c);
    assert(spec_u64_to_le_bytes(spec_u64_from_le_bytes(d)) == d);
    assert(a + b + c + d =~= bytes);
}

/// The bytes of the blank record are all zero, and 32 zero bytes stand for
/// the blank record: a fresh buffer needs no separate initialisation.
pub proof fn lemma_blank_wire()
    ensures
        UserState::blank().wire() == Seq::new(32, |i: int| 0u8),
        UserState::from_wire(Seq::new(32, |i: int| 0u8)) == UserState::blank(),
{
    let zeros = Seq::new(32, |i: int| 0u8);
    let z = spec_u64_to_le_bytes(0);
    assert(z =~= seq![0u8, 0u8, 0u8, 0u8, 0u8, 0u8, 0u8, 0u8]) by {
        spec_u64_to_le_bytes_to_open(0);
        assert(0u64 & 0xff == 0 && (0u64 >> 8) & 0xff == 0 && (0u64 >> 16) & 0xff == 0 && (0u64
            >> 24) & 0xff == 0 && (0u64 >> 32) & 0xff == 0 && (0u64 >> 40) & 0xff == 0 && (0u64
            >> 48) & 0xff == 0 && (0u64 >> 56) & 0xff == 0) by (bit_vector);
    }
    assert(UserState::blank().wire() =~= zeros);
    lemma_decode_encode(UserState::blank());
}

} // verus!
