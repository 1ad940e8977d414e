//! The caller's side: one operation, called through a transport.

use vstd::prelude::*;
use crate::error::{RpcError, RpcResult, TransportError};
use crate::error::transported;
use crate::pickle::{outcome, written};
use crate::rpc::{lemma_serves_the_query, round_trips, Implementation, Rpc, RpcImpl, RpcName, RpcType};
use crate::server::RpcServer;
use crate::transport::{
    lemma_frame_is_read_back, name_round_trips, reads_query, record_round_trips, InternalTransport,
    ReceivedQuery, Transport, TransportConfig,
};

verus! {

/// The frame that asks the operation with this name for an answer to a query with
/// view `query`: the query is encoded, then framed with the name.
pub open spec fn request_frame<Q: RpcType>(
    config: TransportConfig,
    text: Seq<char>,
    query: <Q as DeepView>::V,
) -> Option<Seq<u8>> {
    match config.encoding::<Q>(query) {
        None => None,
        Some(query_bytes) => config.frame(text, query_bytes),
    }
}

/// What a reply is read as: a failure is handed on, bytes are decoded as a response.
pub open spec fn reads_reply<R: RpcType>(
    config: TransportConfig,
    reply: RpcResult<Vec<u8>>,
    r: RpcResult<R>,
) -> bool {
    match reply {
        Err(e) => r == Err::<R, RpcError>(e),
        Ok(bytes) => outcome(r) == config.decoding::<R>(bytes@) && (r is Err ==> r->Err_0 is ParseError),
    }
}

/// An [RpcClient] encapsulates an Rpc and allows it to be called, providing a [Transport].
pub struct RpcClient<Name: RpcName, Q: RpcType, R: RpcType> {
    pub rpc: Rpc<Name, Q, R>,
}

impl<Name: RpcName, Q: RpcType, R: RpcType> RpcClient<Name, Q, R> {
    pub fn new(rpc: Rpc<Name, Q, R>) -> (client: Self)
        ensures
            client.rpc == rpc,
    {
        Self { rpc }
    }

    /// Builds the frame that carries `query` to the operation.
    pub fn request(&self, query: &Q, config: &TransportConfig) -> (r: RpcResult<Vec<u8>>)
        ensures
            written(r) == request_frame::<Q>(*config, self.rpc.name.text(), query.deep_view()),
            r is Err ==> r->Err_0 is ParseError,
    {
        match config.serialize(query) {
            Err(e) => Err(e),
            Ok(query_bytes) => config.frame_query(query_bytes.as_slice(), &self.rpc.name),
        }
    }

    /// Reads the reply to a call as the operation's response.
    pub fn read_reply(config: &TransportConfig, reply: RpcResult<Vec<u8>>) -> (r: RpcResult<R>)
        ensures
            reads_reply::<R>(*config, reply, r),
    {
        match reply {
            Err(e) => Err(e),
            Ok(result_bytes) => config.deserialize(result_bytes.as_slice()),
        }
    }

    /// Call the rpc, using the specified [Transport] to connect to the server.
    ///
    /// A query that cannot be encoded or framed fails with the codec's error, and
    /// nothing is sent. Else the channel is handed the frame of the query, once,
    /// and what it gives back is read as the response.
    pub fn call<I: InternalTransport>(&self, query: Q, transport: &mut Transport<I, Name>) -> (r:
        RpcResult<R>)
        ensures
            final(transport).config == old(transport).config,
            match request_frame::<Q>(old(transport).config, self.rpc.name.text(), query.deep_view()) {
                None => r matches Err(RpcError::ParseError(_)) && final(transport).internal_transport
                    == old(transport).internal_transport,
                Some(frame) => exists|raw: Result<Vec<u8>, TransportError>|
                    #[trigger] old(transport).internal_transport.exchanged(
                        frame,
                        final(transport).internal_transport,
                        raw,
                    ) && reads_reply::<R>(old(transport).config, transported(raw), r),
            },
    {
        match transport.config.serialize(&query) {
            Err(e) => Err(e),
            Ok(query_bytes) => {
                let reply = transport.send_query(query_bytes.as_slice(), &self.rpc.name);
                let r = Self::read_reply(&transport.config, reply);
                proof {
                    let config = old(transport).config;
                    let frame = request_frame::<Q>(config, self.rpc.name.text(), query.deep_view());
                    if frame is Some {
                        let raw = choose|raw: Result<Vec<u8>, TransportError>|
                            #[trigger] old(transport).internal_transport.exchanged(
                                frame->Some_0,
                                transport.internal_transport,
                                raw,
                            ) && reply == transported(raw);
                        assert(old(transport).internal_transport.exchanged(
                            frame->Some_0,
                            transport.internal_transport,
                            raw,
                        ));
                    }
                }
                r
            },
        }
    }
}

/// A call reaches its operation and the operation's answer reaches the caller.
///
/// The client frames a query for a name; the server, which holds an operation
/// under that name, reads the frame, serves it and answers; the client reads the
/// answer. Where the codec gives back the query, the name and the frame's record,
/// the operation has answered that very query, and the caller holds that answer:
/// the operation's failure unchanged, or its response, where the response
/// survives the codec too.
pub proof fn lemma_call_is_answered_by_the_operation<
    S,
    Name: RpcName,
    Q: RpcType,
    R: RpcType,
    H: Implementation<S, Q, R>,
>(
    server: RpcServer<S, Name, RpcImpl<Name, S, Q, R, H>>,
    name: Name,
    query: <Q as DeepView>::V,
    frame: Vec<u8>,
    received: RpcResult<ReceivedQuery<Name>>,
    post: RpcServer<S, Name, RpcImpl<Name, S, Q, R, H>>,
    answer: RpcResult<Vec<u8>>,
    r: RpcResult<R>,
)
    requires
        round_trips::<Q>(query),
        name_round_trips(server.transport_config, name.text()),
        record_round_trips(
            server.transport_config,
            server.transport_config.name_encoding(name.text())->Some_0,
            server.transport_config.encoding::<Q>(query)->Some_0,
        ),
        server.registry().contains_key(name.text()),
        Some(frame@) == request_frame::<Q>(server.transport_config, name.text(), query),
        reads_query(server.transport_config, Ok(frame), received),
        server.serves(received, post, answer),
        reads_reply::<R>(server.transport_config, answer, r),
    ensures
        exists|answered: Result<<R as DeepView>::V, RpcError>|
            {
                &&& #[trigger] server.registry()[name.text()].call.answers(
                    server.state,
                    query,
                    post.state,
                    answered,
                )
                &&& match answered {
                    Err(e) => r == Err::<R, RpcError>(e),
                    Ok(response) => round_trips::<R>(response) ==> (r matches Ok(value)
                        && value.deep_view() == response),
                }
            },
{
    let config = server.transport_config;
    let query_bytes = config.encoding::<Q>(query)->Some_0;
    lemma_frame_is_read_back(config, name, query_bytes, frame, received);
    let operation = server.registry()[name.text()];
    lemma_serves_the_query::<S, Q, R, H>(operation.call, config, query, server.state, post.state, answer);
    let answered = choose|answered: Result<<R as DeepView>::V, RpcError>|
        {
            &&& #[trigger] operation.call.answers(server.state, query, post.state, answered)
            &&& match answered {
                Err(e) => answer == Err::<Vec<u8>, RpcError>(e),
                Ok(response) => round_trips::<R>(response) ==> (answer matches Ok(bytes)
                    && config.decoding::<R>(bytes@) == Some(response)),
            }
        };
    assert(operation.call.answers(server.state, query, post.state, answered));
}

} // verus!
