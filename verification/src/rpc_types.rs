//! The types that can be a query or a response.

use vstd::prelude::*;
use crate::rpc::{round_trips, RpcType, ToFromBytes};
use crate::error::{RpcError, RpcResult};
use crate::pickle::{
    pickle_text, pickle_texts, pickle_u32s, pickle_u64, pickle_unit, pickled_texts, pickled_u32s,
    structure_error, text_pickle, u64_pickle, unit_pickle, unpickle_text, unpickle_texts,
    unpickle_u32s, unpickle_u64, unpickle_unit, unpickled_text, unpickled_texts, unpickled_u32s,
    unpickled_u64, unpickled_unit,
};

verus! {

impl<T: ToFromBytes> RpcType for T {}

/// A codec result as a call's result: the codec's error becomes `RpcError::ParseError`.
pub fn parsed<T>(r: Result<T, serde_pickle::Error>) -> (out: RpcResult<T>)
    ensures
        out == match r {
            Ok(v) => Ok::<T, RpcError>(v),
            Err(e) => Err(RpcError::ParseError(e)),
        },
{
    match r {
        Ok(v) => Ok(v),
        Err(e) => Err(RpcError::ParseError(e)),
    }
}

impl ToFromBytes for () {
    open spec fn bytes_of(v: ()) -> Option<Seq<u8>> {
        Some(unit_pickle())
    }

    open spec fn value_of(bytes: Seq<u8>) -> Option<()> {
        unpickled_unit(bytes)
    }

    fn to_bytes(&self) -> (r: RpcResult<Vec<u8>>) {
        parsed(pickle_unit(self))
    }

    fn of_bytes(b: &[u8]) -> (r: RpcResult<Self>) {
        parsed(unpickle_unit(b))
    }
}

impl ToFromBytes for u64 {
    open spec fn bytes_of(v: u64) -> Option<Seq<u8>> {
        Some(u64_pickle(v))
    }

    open spec fn value_of(bytes: Seq<u8>) -> Option<u64> {
        unpickled_u64(bytes)
    }

    fn to_bytes(&self) -> (r: RpcResult<Vec<u8>>) {
        parsed(pickle_u64(self))
    }

    fn of_bytes(b: &[u8]) -> (r: RpcResult<Self>) {
        parsed(unpickle_u64(b))
    }
}

impl ToFromBytes for usize {
    /// A `usize` travels as the `u64` that it is.
    open spec fn bytes_of(v: usize) -> Option<Seq<u8>> {
        Some(u64_pickle(v as u64))
    }

    /// A `u64` that does not fit is no `usize`.
    open spec fn value_of(bytes: Seq<u8>) -> Option<usize> {
        match unpickled_u64(bytes) {
            Some(n) => if n <= usize::MAX {
                Some(n as usize)
            } else {
                None
            },
            None => None,
        }
    }

    fn to_bytes(&self) -> (r: RpcResult<Vec<u8>>) {
        let n = *self as u64;
        parsed(pickle_u64(&n))
    }

    fn of_bytes(b: &[u8]) -> (r: RpcResult<Self>) {
        match unpickle_u64(b) {
            Err(e) => Err(RpcError::ParseError(e)),
            Ok(n) => if n <= usize::MAX as u64 {
                Ok(n as usize)
            } else {
                Err(RpcError::ParseError(structure_error("number out of range for usize")))
            },
        }
    }
}

/// A `usize` survives the codec where the `u64` that it is does.
pub proof fn lemma_usize_round_trips(n: usize)
    requires
        round_trips::<u64>(n as u64),
    ensures
        round_trips::<usize>(n),
{
}

impl ToFromBytes for String {
    open spec fn bytes_of(v: Seq<char>) -> Option<Seq<u8>> {
        Some(text_pickle(v))
    }

    open spec fn value_of(bytes: Seq<u8>) -> Option<Seq<char>> {
        unpickled_text(bytes)
    }

    fn to_bytes(&self) -> (r: RpcResult<Vec<u8>>) {
        parsed(pickle_text(self.as_str()))
    }

    fn of_bytes(b: &[u8]) -> (r: RpcResult<Self>) {
        parsed(unpickle_text(b))
    }
}

impl ToFromBytes for Vec<u32> {
    open spec fn bytes_of(v: Seq<u32>) -> Option<Seq<u8>> {
        pickled_u32s(v)
    }

    open spec fn value_of(bytes: Seq<u8>) -> Option<Seq<u32>> {
        unpickled_u32s(bytes)
    }

    fn to_bytes(&self) -> (r: RpcResult<Vec<u8>>) {
        parsed(pickle_u32s(self))
    }

    fn of_bytes(b: &[u8]) -> (r: RpcResult<Self>) {
        parsed(unpickle_u32s(b))
    }
}

impl ToFromBytes for Vec<String> {
    open spec fn bytes_of(v: Seq<Seq<char>>) -> Option<Seq<u8>> {
        pickled_texts(v)
    }

    open spec fn value_of(bytes: Seq<u8>) -> Option<Seq<Seq<char>>> {
        unpickled_texts(bytes)
    }

    fn to_bytes(&self) -> (r: RpcResult<Vec<u8>>) {
        parsed(pickle_texts(self))
    }

    fn of_bytes(b: &[u8]) -> (r: RpcResult<Self>) {
        parsed(unpickle_texts(b))
    }
}

} // verus!
