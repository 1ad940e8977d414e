//! What an operation is: its name, the types of its query and response, and the
//! function behind it.

use vstd::prelude::*;
use std::marker::PhantomData;
use crate::error::{RpcError, RpcResult};
use crate::pickle::{outcome, written};
use crate::transport::TransportConfig;

verus! {

/// A value that has a byte form.
///
/// `bytes_of` and `value_of` say, over views, what the two methods compute. They
/// need not undo each other: see [`round_trips`].
pub trait ToFromBytes: DeepView + Sized {
    /// The byte form of a value with this view; `None` where it has none.
    spec fn bytes_of(v: <Self as DeepView>::V) -> Option<Seq<u8>>;

    /// The view of the value that these bytes stand for; `None` where they stand for none.
    spec fn value_of(bytes: Seq<u8>) -> Option<<Self as DeepView>::V>;

    fn to_bytes(&self) -> (r: RpcResult<Vec<u8>>)
        ensures
            written(r) == Self::bytes_of(self.deep_view()),
            r is Err ==> r->Err_0 is ParseError,
    ;

    fn of_bytes(b: &[u8]) -> (r: RpcResult<Self>)
        ensures
            outcome(r) == Self::value_of(b@),
            r is Err ==> r->Err_0 is ParseError,
    ;
}

/// A value with view `v` survives the codec: it has a byte form, and the bytes
/// are read back as `v`.
pub open spec fn round_trips<T: ToFromBytes>(v: <T as DeepView>::V) -> bool {
    T::bytes_of(v) matches Some(bytes) && T::value_of(bytes) == Some(v)
}

/// The type of a query or of a response.
pub trait RpcType: ToFromBytes {}

/// The name of an operation: one of a closed set, told apart by its text.
pub trait RpcName: Sized {
    /// The text that stands for the name, on the wire and in messages.
    spec fn text(&self) -> Seq<char>;

    /// The name as text.
    fn to_text(&self) -> (s: String)
        ensures
            s@ == self.text(),
    ;

    /// The name with this text, if there is one.
    fn of_text(text: &str) -> (r: Option<Self>)
        ensures
            r matches Some(n) ==> n.text() == text@,
            r is None ==> forall|n: Self| #[trigger] n.text() != text@,
    ;

    /// The same name once more.
    fn copy(&self) -> (n: Self)
        ensures
            n.text() == self.text(),
    ;

    /// Whether two names are one.
    fn same(&self, other: &Self) -> (b: bool)
        ensures
            b == (self.text() == other.text()),
    {
        self.to_text() == other.to_text()
    }
}

/// An operation as its caller sees it: the name, and the two types.
pub struct Rpc<Name, Q: RpcType, R: RpcType> {
    pub name: Name,
    pub _query_phantom: PhantomData<Q>,
    pub _response_phantom: PhantomData<R>,
}

impl<Name: RpcName, Q: RpcType, R: RpcType> Rpc<Name, Q, R> {
    pub fn new(name: Name) -> (rpc: Self)
        ensures
            rpc.name == name,
    {
        Self { name, _query_phantom: PhantomData, _response_phantom: PhantomData }
    }
}

impl<Name: RpcName, Q: RpcType, R: RpcType> Clone for Rpc<Name, Q, R> {
    fn clone(&self) -> (rpc: Self)
        ensures
            rpc.name.text() == self.name.text(),
    {
        Self { name: self.name.copy(), _query_phantom: PhantomData, _response_phantom: PhantomData }
    }
}

/// What an operation answered, over the view of the response.
pub open spec fn answer<R: DeepView>(out: RpcResult<R>) -> Result<R::V, RpcError> {
    match out {
        Ok(v) => Ok(v.deep_view()),
        Err(e) => Err(e),
    }
}

/// The function behind an operation.
///
/// `answers` relates the state before, the query, the state after and the answer.
/// It is a relation, not a function: an operation may answer one query in more
/// than one way. An operation that does not say what it does holds itself to
/// nothing: the relation is then true of everything.
pub trait Implementation<State, Q: RpcType, R: RpcType> {
    open spec fn answers(
        &self,
        pre: State,
        query: <Q as DeepView>::V,
        post: State,
        out: Result<<R as DeepView>::V, RpcError>,
    ) -> bool {
        true
    }

    fn run(&self, state: &mut State, query: Q) -> (out: RpcResult<R>)
        ensures
            self.answers(*old(state), query.deep_view(), *final(state), answer(out)),
    ;
}

/// An operation as the server holds it: what the caller sees, and the function.
pub struct RpcImpl<Name: RpcName, State, Q: RpcType, R: RpcType, H: Implementation<State, Q, R>> {
    pub rpc: Rpc<Name, Q, R>,
    pub call: H,
    pub _state_phantom: PhantomData<State>,
}

/// The bytes that answer a call, given what the operation answered: its failure
/// unchanged, or its response in byte form, or the codec's failure to write it.
pub open spec fn replies<R: RpcType>(
    config: TransportConfig,
    answered: Result<<R as DeepView>::V, RpcError>,
    out: RpcResult<Vec<u8>>,
) -> bool {
    match answered {
        Err(e) => out == Err::<Vec<u8>, RpcError>(e),
        Ok(v) => match config.encoding::<R>(v) {
            Some(bytes) => out matches Ok(o) && o@ == bytes,
            None => out matches Err(RpcError::ParseError(_)),
        },
    }
}

impl<Name: RpcName, State, Q: RpcType, R: RpcType, H: Implementation<State, Q, R>> RpcImpl<
    Name,
    State,
    Q,
    R,
    H,
> {
    pub fn new(name: Name, call: H) -> (rpc_impl: Self)
        ensures
            rpc_impl.rpc.name == name,
            rpc_impl.call == call,
    {
        Self { rpc: Rpc::new(name), call, _state_phantom: PhantomData }
    }

    fn call(&self, state: &mut State, q: Q) -> (out: RpcResult<R>)
        ensures
            self.call.answers(*old(state), q.deep_view(), *final(state), answer(out)),
    {
        self.call.run(state, q)
    }

    /// Encodes what the operation answered.
    pub fn reply(transport_config: &TransportConfig, answered: RpcResult<R>) -> (out: RpcResult<
        Vec<u8>,
    >)
        ensures
            replies::<R>(*transport_config, answer(answered), out),
    {
        match answered {
            Ok(response) => transport_config.serialize(&response),
            Err(e) => Err(e),
        }
    }
}

/// What it is to serve a payload with the function `call`: decode the payload as a
/// query, run the function on it, encode its response. A payload that is no query
/// fails with the codec's error and leaves the state as it was.
pub open spec fn serves<State, Q: RpcType, R: RpcType, H: Implementation<State, Q, R>>(
    call: H,
    bytes: Seq<u8>,
    config: TransportConfig,
    pre: State,
    post: State,
    out: RpcResult<Vec<u8>>,
) -> bool {
    match config.decoding::<Q>(bytes) {
        None => post == pre && out matches Err(RpcError::ParseError(_)),
        Some(query) => exists|answered: Result<<R as DeepView>::V, RpcError>|
            #[trigger] call.answers(pre, query, post, answered) && replies::<R>(
                config,
                answered,
                out,
            ),
    }
}

/// Serving the byte form of a query is running the function on the query. For a
/// query that survives the codec, whatever serving its bytes gives, the function
/// has given an answer to that very query, and the bytes returned are that answer:
/// the function's failure unchanged, or bytes that are read back as its response,
/// where the response survives the codec too.
pub proof fn lemma_serves_the_query<State, Q: RpcType, R: RpcType, H: Implementation<State, Q, R>>(
    call: H,
    config: TransportConfig,
    query: <Q as DeepView>::V,
    pre: State,
    post: State,
    out: RpcResult<Vec<u8>>,
)
    requires
        round_trips::<Q>(query),
        serves::<State, Q, R, H>(call, config.encoding::<Q>(query)->Some_0, config, pre, post, out),
    ensures
        exists|answered: Result<<R as DeepView>::V, RpcError>|
            {
                &&& #[trigger] call.answers(pre, query, post, answered)
                &&& match answered {
                    Err(e) => out == Err::<Vec<u8>, RpcError>(e),
                    Ok(response) => round_trips::<R>(response) ==> (out matches Ok(bytes)
                        && config.decoding::<R>(bytes@) == Some(response)),
                }
            },
{
    let bytes = config.encoding::<Q>(query)->Some_0;
    assert(config.decoding::<Q>(bytes) == Some(query));
    let answered = choose|answered: Result<<R as DeepView>::V, RpcError>|
        #[trigger] call.answers(pre, query, post, answered) && replies::<R>(config, answered, out);
    assert(call.answers(pre, query, post, answered));
}

/// An operation with its types forgotten: bytes in, bytes out.
pub trait StoredRpc<State, Name: RpcName> {
    /// The text of the operation's name.
    spec fn name_text(&self) -> Seq<char>;

    /// Relates the payload, the state before and after, and what is returned.
    spec fn handles(
        &self,
        bytes: Seq<u8>,
        config: TransportConfig,
        pre: State,
        post: State,
        out: RpcResult<Vec<u8>>,
    ) -> bool;

    fn call_of_bytes(&self, bytes: &[u8], transport_config: &TransportConfig, state: &mut State) -> (out:
        RpcResult<Vec<u8>>)
        ensures
            self.handles(bytes@, *transport_config, *old(state), *final(state), out),
    ;

    fn rpc_name(&self) -> (n: Name)
        ensures
            n.text() == self.name_text(),
    ;
}

impl<Name: RpcName, State, Q: RpcType, R: RpcType, H: Implementation<State, Q, R>> StoredRpc<
    State,
    Name,
> for RpcImpl<Name, State, Q, R, H> {
    open spec fn name_text(&self) -> Seq<char> {
        self.rpc.name.text()
    }

    open spec fn handles(
        &self,
        bytes: Seq<u8>,
        config: TransportConfig,
        pre: State,
        post: State,
        out: RpcResult<Vec<u8>>,
    ) -> bool {
        serves(self.call, bytes, config, pre, post, out)
    }

    fn call_of_bytes(
        &self,
        input_bytes: &[u8],
        transport_config: &TransportConfig,
        state: &mut State,
    ) -> (out: RpcResult<Vec<u8>>) {
        match transport_config.deserialize::<Q>(input_bytes) {
            Err(e) => Err(e),
            Ok(query) => {
                let ghost q = query.deep_view();
                let result = self.call(state, query);
                let out = Self::reply(transport_config, result);
                proof {
                    let decoded = transport_config.decoding::<Q>(input_bytes@);
                    assert(self.call.answers(*old(state), decoded->Some_0, *state, answer(result)));
                }
                out
            },
        }
    }

    fn rpc_name(&self) -> (n: Name) {
        self.rpc.name.copy()
    }
}

/// A boxed operation is the operation in the box, so that operations of different
/// types can stand in one table as `Box<dyn StoredRpc<State, Name>>`.
impl<State, Name: RpcName, T: StoredRpc<State, Name> + ?Sized> StoredRpc<State, Name> for Box<T> {
    open spec fn name_text(&self) -> Seq<char> {
        (**self).name_text()
    }

    open spec fn handles(
        &self,
        bytes: Seq<u8>,
        config: TransportConfig,
        pre: State,
        post: State,
        out: RpcResult<Vec<u8>>,
    ) -> bool {
        (**self).handles(bytes, config, pre, post, out)
    }

    fn call_of_bytes(&self, bytes: &[u8], transport_config: &TransportConfig, state: &mut State) -> (out:
        RpcResult<Vec<u8>>) {
        (**self).call_of_bytes(bytes, transport_config, state)
    }

    fn rpc_name(&self) -> (n: Name) {
        (**self).rpc_name()
    }
}

} // verus!
