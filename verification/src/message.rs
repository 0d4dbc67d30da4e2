//! What identifies a message and how its payload is shown.
//!
//! A message is identified by its payload alone: the identifier is the
//! decimal text of a 64-bit hash of the payload bytes. Who sent the message
//! and on which topic do not enter into it.

use crate::text::{decimal, decimal_text, lemma_decimal_injective};
use std::collections::hash_map::DefaultHasher;
use std::hash::Hash;
use std::hash::Hasher;
use vstd::prelude::*;
use vstd::std_specs::hash::DefaultHasherAdditionalSpecFns;
use vstd::utf8::{decode_utf8, valid_utf8};

verus! {

/// What a hasher has been fed once a byte string was hashed into it, given
/// what it had been fed before: the result of `<Vec<u8> as Hash>::hash`.
pub uninterp spec fn fed_by_hashing(fed: Seq<Seq<u8>>, data: Seq<u8>) -> Seq<Seq<u8>>;

/// The text that `String::from_utf8_lossy` makes of `bytes`.
pub uninterp spec fn lossy_text(bytes: Seq<u8>) -> Seq<char>;

/// Calls `<Vec<u8> as Hash>::hash` on a `DefaultHasher`. The contract claims
/// that what reaches the hasher depends on the bytes, and on what the hasher
/// was fed before, and on nothing else: std asks of every `Hash` that equal
/// values feed a hasher equal data. std does not promise the same data on a
/// target of another pointer width or byte order, nor in another release:
/// the claim is made of one build of the node.
#[verifier::external_body]
fn hash_bytes(data: &Vec<u8>, state: &mut DefaultHasher)
    ensures
        final(state)@ == fed_by_hashing(old(state)@, data@),
{
    data.hash(state);
}

/// Calls `String::from_utf8_lossy`. The contract claims that the text depends
/// on the bytes alone, and that bytes which are valid UTF-8 give the text
/// they encode; what replaces an invalid sequence is left to std.
#[verifier::external_body]
fn lossy_decode(bytes: &[u8]) -> (text: String)
    ensures
        text@ == lossy_text(bytes@),
        valid_utf8(bytes@) ==> text@ == decode_utf8(bytes@),
{
    String::from_utf8_lossy(bytes).into_owned()
}

/// The hash of a payload: what a fresh default hasher gives once the payload
/// was hashed into it.
pub open spec fn payload_hash(data: Seq<u8>) -> u64 {
    DefaultHasher::spec_finish(fed_by_hashing(Seq::empty(), data))
}

/// The identifier of a message with payload `data`.
pub open spec fn message_id_of(data: Seq<u8>) -> Seq<char> {
    decimal(payload_hash(data) as nat)
}

/// The identifier that stands for a payload hash: the hash in decimal.
pub fn message_id_from_hash(hash: u64) -> (id: String)
    ensures
        id@ == decimal(hash as nat),
{
    decimal_text(hash)
}

/// The identifier of a message with payload `data`.
pub fn message_id(data: &Vec<u8>) -> (id: String)
    ensures
        id@ == message_id_of(data@),
{
    let mut state = DefaultHasher::new();
    hash_bytes(data, &mut state);
    message_id_from_hash(state.finish())
}

/// The payload of a message as text, for the log.
pub fn payload_text(data: &Vec<u8>) -> (text: String)
    ensures
        text@ == lossy_text(data@),
        valid_utf8(data@) ==> text@ == decode_utf8(data@),
{
    lossy_decode(data.as_slice())
}

/// Messages with the same payload have the same identifier, whoever sent
/// them and whatever their topic: the identifier is made of the payload
/// bytes and of nothing else. Two messages have the same identifier exactly
/// when their payloads have the same hash.
pub proof fn lemma_message_id_of_payload_alone(first: Seq<u8>, second: Seq<u8>)
    ensures
        first == second ==> message_id_of(first) == message_id_of(second),
        message_id_of(first) == message_id_of(second) <==> payload_hash(first) == payload_hash(
            second,
        ),
{
    if message_id_of(first) == message_id_of(second) {
        lemma_decimal_injective(payload_hash(first) as nat, payload_hash(second) as nat);
    }
}

} // verus!
