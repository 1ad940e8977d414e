//! The boundary to the pickle codec.
//!
//! Nothing in this file is proved: each function hands its arguments to
//! `serde_pickle` and each contract is taken on trust. Where the byte form of a
//! value is a fixed layout, the contract writes it out. Where it is not (a list is
//! written in batches, and what is read as a value is whatever a pickle program
//! leaves behind), the result is given a name, which says no more than that the
//! codec is a function of what it is given.

use vstd::prelude::*;
use vstd::bytes::{spec_u32_to_le_bytes, spec_u64_to_le_bytes};
use vstd::utf8::encode_utf8;

verus! {

/// The error of `serde_pickle`. It is carried, never opened.
#[verifier::external_type_specification]
#[verifier::external_body]
pub struct ExPickleError(serde_pickle::Error);

/// The pickle of `None`, which stands for `()`: the protocol's number, which is 3,
/// the opcode `N`, and the opcode that ends a pickle.
pub open spec fn unit_pickle() -> Seq<u8> {
    seq![0x80u8, 0x03, 0x4e, 0x2e]
}

/// The pickle of a number. Below 2^31 it is the opcode `J` and four bytes, the
/// lowest first; from there on the opcode for a long number, its length, which is
/// 9, eight bytes, the lowest first, and a zero byte for the sign.
pub open spec fn u64_pickle(n: u64) -> Seq<u8> {
    if n < 0x8000_0000 {
        seq![0x80u8, 0x03, 0x4a] + spec_u32_to_le_bytes(n as u32) + seq![0x2eu8]
    } else {
        seq![0x80u8, 0x03, 0x8a, 0x09] + spec_u64_to_le_bytes(n) + seq![0x00u8, 0x2e]
    }
}

/// The pickle of a string: the opcode `X`, the length of the string's UTF-8 form
/// in four bytes, the lowest first, and the UTF-8 form. The length is cut to 32
/// bits.
pub open spec fn text_pickle(text: Seq<char>) -> Seq<u8> {
    let utf8 = encode_utf8(text);
    seq![0x80u8, 0x03, 0x58] + spec_u32_to_le_bytes((utf8.len() % 0x1_0000_0000) as u32) + utf8
        + seq![0x2eu8]
}

/// What `serde_pickle::from_slice` reads as a `String`, with the options that
/// `DeOptions::new` gives; `None` where it reports an error.
pub uninterp spec fn unpickled_text(bytes: Seq<u8>) -> Option<Seq<char>>;

/// What `serde_pickle::from_slice` reads as `()`, with the options that
/// `DeOptions::new` gives: `Some` where it reads one, `None` where it reports an
/// error.
pub uninterp spec fn unpickled_unit(bytes: Seq<u8>) -> Option<()>;

/// What `serde_pickle::from_slice` reads as a `u64`; `None` where it reports an error.
pub uninterp spec fn unpickled_u64(bytes: Seq<u8>) -> Option<u64>;

/// What `serde_pickle::to_vec` makes of a `Vec<u32>`, with the options that
/// `SerOptions::new` gives; `None` where it reports an error.
pub uninterp spec fn pickled_u32s(items: Seq<u32>) -> Option<Seq<u8>>;

/// What `serde_pickle::from_slice` reads as a `Vec<u32>`; `None` where it reports an error.
pub uninterp spec fn unpickled_u32s(bytes: Seq<u8>) -> Option<Seq<u32>>;

/// What `serde_pickle::to_vec` makes of a `Vec<String>`; `None` where it reports an error.
pub uninterp spec fn pickled_texts(items: Seq<Seq<char>>) -> Option<Seq<u8>>;

/// What `serde_pickle::from_slice` reads as a `Vec<String>`; `None` where it reports an error.
pub uninterp spec fn unpickled_texts(bytes: Seq<u8>) -> Option<Seq<Seq<char>>>;

/// What `serde_pickle::to_vec` makes of a map with the two entries `key_a`: `a` and
/// `key_b`: `b`, each value a sequence of numbers; `None` where it reports an error.
pub uninterp spec fn pickled_pair(key_a: Seq<char>, a: Seq<u8>, key_b: Seq<char>, b: Seq<u8>) -> Option<
    Seq<u8>,
>;

/// What `serde_pickle::from_slice` reads as a map from strings to sequences of
/// bytes, as the list of its entries; `None` where it reports an error.
pub uninterp spec fn unpickled_fields(bytes: Seq<u8>) -> Option<Seq<(Seq<char>, Seq<u8>)>>;

/// What a call that writes bytes returned: the bytes, or `None` for an error.
pub open spec fn written<E>(r: Result<Vec<u8>, E>) -> Option<Seq<u8>> {
    match r {
        Ok(bytes) => Some(bytes@),
        Err(_) => None,
    }
}

/// What a call that reads a value returned: the value's view, or `None` for an error.
pub open spec fn outcome<T: DeepView, E>(r: Result<T, E>) -> Option<T::V> {
    match r {
        Ok(v) => Some(v.deep_view()),
        Err(_) => None,
    }
}

/// Calls `serde_pickle::to_vec` on a string slice with default options. The
/// contract claims that the call succeeds and that the bytes are laid out as
/// [`text_pickle`] says.
#[verifier::external_body]
pub(crate) fn pickle_text(text: &str) -> (r: Result<Vec<u8>, serde_pickle::Error>)
    ensures
        written(r) == Some(text_pickle(text@)),
{
    serde_pickle::to_vec(&text, serde_pickle::SerOptions::new())
}

/// Calls `serde_pickle::from_slice` for a `String` with default options. The
/// contract claims only that the text, or the failure, depends on the bytes alone.
#[verifier::external_body]
pub(crate) fn unpickle_text(bytes: &[u8]) -> (r: Result<String, serde_pickle::Error>)
    ensures
        outcome(r) == unpickled_text(bytes@),
{
    serde_pickle::from_slice(bytes, serde_pickle::DeOptions::new())
}

/// Calls `serde_pickle::to_vec` on `()` with default options. The contract claims
/// that the call succeeds and that the bytes are those of [`unit_pickle`].
#[verifier::external_body]
pub(crate) fn pickle_unit(unit: &()) -> (r: Result<Vec<u8>, serde_pickle::Error>)
    ensures
        written(r) == Some(unit_pickle()),
{
    serde_pickle::to_vec(unit, serde_pickle::SerOptions::new())
}

/// Calls `serde_pickle::from_slice` for `()` with default options. The contract
/// claims only that success or failure depends on the bytes alone.
#[verifier::external_body]
pub(crate) fn unpickle_unit(bytes: &[u8]) -> (r: Result<(), serde_pickle::Error>)
    ensures
        outcome(r) == unpickled_unit(bytes@),
{
    serde_pickle::from_slice(bytes, serde_pickle::DeOptions::new())
}

/// Calls `serde_pickle::to_vec` on a `u64` with default options. The contract
/// claims that the call succeeds and that the bytes are laid out as [`u64_pickle`]
/// says.
#[verifier::external_body]
pub(crate) fn pickle_u64(n: &u64) -> (r: Result<Vec<u8>, serde_pickle::Error>)
    ensures
        written(r) == Some(u64_pickle(*n)),
{
    serde_pickle::to_vec(n, serde_pickle::SerOptions::new())
}

/// Calls `serde_pickle::from_slice` for a `u64` with default options. The contract
/// claims only that the number, or the failure, depends on the bytes alone.
#[verifier::external_body]
pub(crate) fn unpickle_u64(bytes: &[u8]) -> (r: Result<u64, serde_pickle::Error>)
    ensures
        outcome(r) == unpickled_u64(bytes@),
{
    serde_pickle::from_slice(bytes, serde_pickle::DeOptions::new())
}

/// Calls `serde_pickle::to_vec` on a `Vec<u32>` with default options. The contract
/// claims only that the bytes, or the failure, depend on the items alone.
#[verifier::external_body]
pub(crate) fn pickle_u32s(items: &Vec<u32>) -> (r: Result<Vec<u8>, serde_pickle::Error>)
    ensures
        written(r) == pickled_u32s(items.deep_view()),
{
    serde_pickle::to_vec(items, serde_pickle::SerOptions::new())
}

/// Calls `serde_pickle::from_slice` for a `Vec<u32>` with default options. The
/// contract claims only that the items, or the failure, depend on the bytes alone.
#[verifier::external_body]
pub(crate) fn unpickle_u32s(bytes: &[u8]) -> (r: Result<Vec<u32>, serde_pickle::Error>)
    ensures
        outcome(r) == unpickled_u32s(bytes@),
{
    serde_pickle::from_slice(bytes, serde_pickle::DeOptions::new())
}

/// Calls `serde_pickle::to_vec` on a `Vec<String>` with default options. The
/// contract claims only that the bytes, or the failure, depend on the texts alone.
#[verifier::external_body]
pub(crate) fn pickle_texts(items: &Vec<String>) -> (r: Result<Vec<u8>, serde_pickle::Error>)
    ensures
        written(r) == pickled_texts(items.deep_view()),
{
    serde_pickle::to_vec(items, serde_pickle::SerOptions::new())
}

/// Calls `serde_pickle::from_slice` for a `Vec<String>` with default options. The
/// contract claims only that the texts, or the failure, depend on the bytes alone.
#[verifier::external_body]
pub(crate) fn unpickle_texts(bytes: &[u8]) -> (r: Result<Vec<String>, serde_pickle::Error>)
    ensures
        outcome(r) == unpickled_texts(bytes@),
{
    serde_pickle::from_slice(bytes, serde_pickle::DeOptions::new())
}

/// Calls `serde_pickle::to_vec` on a `BTreeMap` that holds the two entries, with
/// default options. The contract claims only that the bytes, or the failure,
/// depend on the two keys and the two values alone.
#[verifier::external_body]
pub(crate) fn pickle_pair(key_a: &str, a: &[u8], key_b: &str, b: &[u8]) -> (r: Result<
    Vec<u8>,
    serde_pickle::Error,
>)
    ensures
        written(r) == pickled_pair(key_a@, a@, key_b@, b@),
{
    let fields: std::collections::BTreeMap<&str, &[u8]> = [(key_a, a), (key_b, b)].into();
    serde_pickle::to_vec(&fields, serde_pickle::SerOptions::new())
}

/// Calls `serde_pickle::from_slice` for a `BTreeMap<String, Vec<u8>>` with default
/// options and hands out the map's entries. The contract claims only that the
/// entries, or the failure, depend on the bytes alone.
#[verifier::external_body]
pub(crate) fn unpickle_fields(bytes: &[u8]) -> (r: Result<Vec<(String, Vec<u8>)>, serde_pickle::Error>)
    ensures
        outcome(r) == unpickled_fields(bytes@),
{
    let fields: std::collections::BTreeMap<String, Vec<u8>> = serde_pickle::from_slice(
        bytes,
        serde_pickle::DeOptions::new(),
    )?;
    Ok(fields.into_iter().collect())
}

/// Makes the codec's error for a value that is well-formed pickle but not what was
/// expected, through the codec's impl of `serde::de::Error::custom`. Nothing is
/// claimed of the error.
#[verifier::external_body]
pub(crate) fn structure_error(detail: &str) -> (e: serde_pickle::Error) {
    serde::de::Error::custom(detail)
}

/// Renders a codec error with its `Display` impl. Nothing is claimed of the text.
#[verifier::external_body]
pub(crate) fn error_text(e: &serde_pickle::Error) -> (s: String) {
    format!("{}", e)
}

} // verus!
