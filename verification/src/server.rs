//! The server's side: the table of operations, and one connection from its frame
//! to its reply.

use vstd::prelude::*;
use vstd::string::StringExecFns;
use std::marker::PhantomData;
use crate::error::{transported, RpcError, RpcResult, TransportError};
use crate::rpc::{RpcName, StoredRpc};
use crate::transport::{reads_query, InternalTransport, ReceivedQuery, Transport, TransportConfig};

verus! {

/// The state that the operations share, the operations by name, and the codec.
///
/// An operation is found by the text of its name. Where two entries of `rpcs`
/// have one name, the first is the one that is found; a server that is made by
/// [`RpcServer::new`] and grown by [`RpcServer::add_rpc`] has no two such entries
/// (see [`RpcServer::distinct`]).
pub struct RpcServer<S, Name: RpcName, Op: StoredRpc<S, Name> = Box<dyn StoredRpc<S, Name>>> {
    pub state: S,
    pub rpcs: Vec<Op>,
    pub transport_config: TransportConfig,
    pub _name_phantom: PhantomData<Name>,
}

impl<S, Name: RpcName, Op: StoredRpc<S, Name>> RpcServer<S, Name, Op> {
    /// Entry `i` is the first with this name.
    pub open spec fn is_first(rpcs: Seq<Op>, text: Seq<char>, i: int) -> bool {
        &&& 0 <= i < rpcs.len()
        &&& rpcs[i].name_text() == text
        &&& forall|j: int| 0 <= j < i ==> (#[trigger] rpcs[j]).name_text() != text
    }

    /// No two entries have one name.
    pub open spec fn distinct(&self) -> bool {
        forall|i: int, j: int|
            0 <= i < j < self.rpcs@.len() ==> (#[trigger] self.rpcs@[i]).name_text() != (
            #[trigger] self.rpcs@[j]).name_text()
    }

    /// The operation that is found under this name.
    pub open spec fn registered(rpcs: Seq<Op>, text: Seq<char>) -> Option<Op> {
        if exists|i: int| Self::is_first(rpcs, text, i) {
            Some(rpcs[choose|i: int| Self::is_first(rpcs, text, i)])
        } else {
            None
        }
    }

    /// The table of operations: each name that is taken, with its operation.
    pub open spec fn registry(&self) -> Map<Seq<char>, Op> {
        Map::new(
            |text: Seq<char>| Self::registered(self.rpcs@, text) is Some,
            |text: Seq<char>| Self::registered(self.rpcs@, text)->Some_0,
        )
    }

    /// What a call of the operation named `text` gives on the state `pre`: the
    /// operation found under the name decides; under a name that is not taken the
    /// call fails and the state stays as it was.
    pub open spec fn dispatches(
        &self,
        text: Seq<char>,
        bytes: Seq<u8>,
        pre: S,
        post: S,
        out: RpcResult<Vec<u8>>,
    ) -> bool {
        if self.registry().contains_key(text) {
            self.registry()[text].handles(bytes, self.transport_config, pre, post, out)
        } else {
            &&& post == pre
            &&& out matches Err(RpcError::Custom(message))
            &&& message@ == "Rpc not found: "@ + text
        }
    }

    proof fn lemma_first_is_unique(rpcs: Seq<Op>, text: Seq<char>, i: int, j: int)
        requires
            Self::is_first(rpcs, text, i),
            Self::is_first(rpcs, text, j),
        ensures
            i == j,
    {
    }

    proof fn lemma_registered(rpcs: Seq<Op>, text: Seq<char>, i: int)
        requires
            Self::is_first(rpcs, text, i),
        ensures
            Self::registered(rpcs, text) == Some(rpcs[i]),
    {
        let k = choose|k: int| Self::is_first(rpcs, text, k);
        Self::lemma_first_is_unique(rpcs, text, i, k);
    }

    pub fn new(state: S, transport_config: TransportConfig) -> (server: Self)
        ensures
            server.state == state,
            server.transport_config == transport_config,
            server.registry() == Map::<Seq<char>, Op>::empty(),
            server.distinct(),
    {
        let server = Self { state, rpcs: Vec::new(), transport_config, _name_phantom: PhantomData };
        server
    }

    /// The place of the operation that is found under a name.
    fn find(&self, name: &Name) -> (r: Option<usize>)
        ensures
            match r {
                Some(i) => Self::is_first(self.rpcs@, name.text(), i as int),
                None => Self::registered(self.rpcs@, name.text()) is None,
            },
    {
        let mut i: usize = 0;
        while i < self.rpcs.len()
            invariant
                i <= self.rpcs@.len(),
                forall|j: int| 0 <= j < i ==> (#[trigger] self.rpcs@[j]).name_text() != name.text(),
            decreases self.rpcs@.len() - i,
        {
            if self.rpcs[i].rpc_name().same(name) {
                return Some(i);
            }
            i += 1;
        }
        None
    }

    /// Registers an operation under its name. An operation that held the name
    /// before is replaced.
    pub fn add_rpc(&mut self, stored_rpc: Op)
        ensures
            final(self).registry() == old(self).registry().insert(stored_rpc.name_text(), stored_rpc),
            final(self).state == old(self).state,
            final(self).transport_config == old(self).transport_config,
            old(self).distinct() ==> final(self).distinct(),
    {
        let name = stored_rpc.rpc_name();
        let ghost text = stored_rpc.name_text();
        let ghost before = self.rpcs@;
        match self.find(&name) {
            Some(i) => {
                self.rpcs[i] = stored_rpc;
                proof {
                    let after = self.rpcs@;
                    Self::lemma_same_names(before, after);
                    Self::lemma_registered(after, text, i as int);
                    assert forall|t: Seq<char>| t != text implies Self::registered(after, t)
                        == Self::registered(before, t) by {
                        if exists|j: int| Self::is_first(before, t, j) {
                            let j = choose|j: int| Self::is_first(before, t, j);
                            Self::lemma_registered(after, t, j);
                        }
                    }
                }
            },
            None => {
                self.rpcs.push(stored_rpc);
                proof {
                    let after = self.rpcs@;
                    let n = before.len() as int;
                    assert forall|j: int| 0 <= j < n implies (#[trigger] after[j]).name_text()
                        != text by {
                        Self::lemma_no_entry(before, text, j);
                    }
                    Self::lemma_registered(after, text, n);
                    assert forall|t: Seq<char>| t != text implies Self::registered(after, t)
                        == Self::registered(before, t) by {
                        if exists|j: int| Self::is_first(before, t, j) {
                            let j = choose|j: int| Self::is_first(before, t, j);
                            Self::lemma_registered(after, t, j);
                        } else if exists|j: int| Self::is_first(after, t, j) {
                            let j = choose|j: int| Self::is_first(after, t, j);
                            assert forall|k: int| 0 <= k < j implies (#[trigger] before[k]).name_text()
                                != t by {
                                assert(before[k] == after[k]);
                            }
                            assert(Self::is_first(before, t, j));
                        }
                    }
                }
            },
        }
    }

    proof fn lemma_same_names(before: Seq<Op>, after: Seq<Op>)
        requires
            before.len() == after.len(),
            forall|k: int|
                0 <= k < before.len() ==> (#[trigger] after[k]).name_text() == before[k].name_text(),
        ensures
            forall|t: Seq<char>, j: int|
                #[trigger] Self::is_first(after, t, j) == Self::is_first(before, t, j),
    {
        assert forall|t: Seq<char>, j: int| #[trigger]
            Self::is_first(after, t, j) == Self::is_first(before, t, j) by {
            if Self::is_first(after, t, j) {
                assert forall|k: int| 0 <= k < j implies (#[trigger] before[k]).name_text() != t by {
                    assert(after[k].name_text() == before[k].name_text());
                }
            }
        }
    }

    proof fn lemma_no_entry(rpcs: Seq<Op>, text: Seq<char>, j: int)
        requires
            Self::registered(rpcs, text) is None,
            0 <= j < rpcs.len(),
        ensures
            rpcs[j].name_text() != text,
        decreases j,
    {
        if rpcs[j].name_text() == text {
            if forall|k: int| 0 <= k < j ==> (#[trigger] rpcs[k]).name_text() != text {
                assert(Self::is_first(rpcs, text, j));
            } else {
                let k = choose|k: int| 0 <= k < j && (#[trigger] rpcs[k]).name_text() == text;
                Self::lemma_no_entry(rpcs, text, k);
            }
        }
    }

    /// Calls the operation that is registered under a name, on a state that the
    /// caller holds. The server itself is only read: the state is borrowed for
    /// this one call and for no longer.
    pub fn dispatch(&self, incoming_name: &Name, payload_bytes: &[u8], state: &mut S) -> (out: RpcResult<
        Vec<u8>,
    >)
        ensures
            self.dispatches(incoming_name.text(), payload_bytes@, *old(state), *final(state), out),
    {
        match self.find(incoming_name) {
            Some(i) => {
                proof {
                    Self::lemma_registered(self.rpcs@, incoming_name.text(), i as int);
                }
                self.rpcs[i].call_of_bytes(payload_bytes, &self.transport_config, state)
            },
            None => Err(Self::not_found(incoming_name)),
        }
    }

    /// The failure of a call under a name that is not taken.
    fn not_found(name: &Name) -> (e: RpcError)
        ensures
            e matches RpcError::Custom(message) && message@ == "Rpc not found: "@ + name.text(),
    {
        let mut message = String::from_str("Rpc not found: ");
        message.append(name.to_text().as_str());
        RpcError::Custom(message)
    }

    /// Calls the operation that is registered under a name, on the server's state.
    pub fn call(&mut self, incoming_bytes: &[u8], incoming_name: &Name) -> (out: RpcResult<Vec<u8>>)
        ensures
            final(self).rpcs == old(self).rpcs,
            final(self).transport_config == old(self).transport_config,
            old(self).dispatches(
                incoming_name.text(),
                incoming_bytes@,
                old(self).state,
                final(self).state,
                out,
            ),
    {
        match self.find(incoming_name) {
            Some(i) => {
                proof {
                    Self::lemma_registered(self.rpcs@, incoming_name.text(), i as int);
                }
                self.rpcs[i].call_of_bytes(incoming_bytes, &self.transport_config, &mut self.state)
            },
            None => Err(Self::not_found(incoming_name)),
        }
    }

    /// An operation that was registered is the one that a call of its name runs:
    /// `after` is the server that `before` has become by registering `stored_rpc`,
    /// and whatever a call of that name gives on it, the operation has given.
    pub proof fn lemma_registered_is_called(
        before: Self,
        after: Self,
        stored_rpc: Op,
        bytes: Seq<u8>,
        pre: S,
        post: S,
        out: RpcResult<Vec<u8>>,
    )
        requires
            after.registry() == before.registry().insert(stored_rpc.name_text(), stored_rpc),
            after.dispatches(stored_rpc.name_text(), bytes, pre, post, out),
        ensures
            stored_rpc.handles(bytes, after.transport_config, pre, post, out),
    {
    }

    /// A name that is not taken: the call fails, no operation runs, the state stays.
    pub proof fn lemma_unknown_name(
        &self,
        text: Seq<char>,
        bytes: Seq<u8>,
        pre: S,
        post: S,
        out: RpcResult<Vec<u8>>,
    )
        requires
            !self.registry().contains_key(text),
            self.dispatches(text, bytes, pre, post, out),
        ensures
            post == pre,
            out matches Err(RpcError::Custom(_)),
    {
    }

    /// The last one registered under a name is the one that is called: of two
    /// operations with one name, registered one after the other, the table holds
    /// the second, as if the first had never been registered.
    pub proof fn lemma_last_write_wins(registry: Map<Seq<char>, Op>, first: Op, second: Op)
        requires
            first.name_text() == second.name_text(),
        ensures
            registry.insert(first.name_text(), first).insert(second.name_text(), second)
                == registry.insert(second.name_text(), second),
            registry.insert(first.name_text(), first).insert(second.name_text(), second)[second.name_text()]
                == second,
    {
        assert(registry.insert(first.name_text(), first).insert(second.name_text(), second)
            =~= registry.insert(second.name_text(), second));
    }

    /// What one frame does to the server, and the reply that is owed to it. A frame
    /// that could not be read changes nothing and is answered by its own failure;
    /// a query is answered by the operation that it names.
    pub open spec fn serves(
        &self,
        query: RpcResult<ReceivedQuery<Name>>,
        post: Self,
        answer: RpcResult<Vec<u8>>,
    ) -> bool {
        &&& post.rpcs == self.rpcs
        &&& post.transport_config == self.transport_config
        &&& match query {
            Err(e) => post.state == self.state && answer == Err::<Vec<u8>, RpcError>(e),
            Ok(received) => self.dispatches(
                received.name.text(),
                received.query_bytes@,
                self.state,
                post.state,
                answer,
            ),
        }
    }

    /// What is sent back on a channel in state `mid`, and what the connection ends
    /// with: a failure is not sent but returned, a reply is sent once.
    pub open spec fn replied<I: InternalTransport>(
        mid: I,
        answer: RpcResult<Vec<u8>>,
        post: I,
        r: RpcResult<()>,
    ) -> bool {
        match answer {
            Err(e) => post == mid && r == Err::<(), RpcError>(e),
            Ok(bytes) => exists|raw: Result<(), TransportError>| #[trigger]
                mid.sent(bytes@, post, raw) && r == transported(raw),
        }
    }

    /// One connection, from the channel in state `channel` to the channel in state
    /// `post_channel`: one frame is received and read as a query, the query is
    /// served, the answer is sent back.
    pub open spec fn handles<I: InternalTransport>(
        &self,
        channel: I,
        config: TransportConfig,
        post: Self,
        post_channel: I,
        r: RpcResult<()>,
    ) -> bool {
        exists|
            raw: Result<Vec<u8>, TransportError>,
            mid: I,
            query: RpcResult<ReceivedQuery<Name>>,
            answer: RpcResult<Vec<u8>>,
        |
            #![trigger channel.received(mid, raw), reads_query(config, raw, query), self.serves(query, post, answer)]
            {
                &&& channel.received(mid, raw)
                &&& reads_query(config, raw, query)
                &&& self.serves(query, post, answer)
                &&& Self::replied(mid, answer, post_channel, r)
            }
    }

    /// A connection whose frame cannot be read leaves the server as it was: the
    /// state, the operations and the codec are those of before, so the connections
    /// that follow are served as if this one had not been.
    pub proof fn lemma_bad_frame_changes_nothing(
        &self,
        query: RpcResult<ReceivedQuery<Name>>,
        post: Self,
        answer: RpcResult<Vec<u8>>,
    )
        requires
            query is Err,
            self.serves(query, post, answer),
        ensures
            post.state == self.state,
            post.rpcs == self.rpcs,
            post.registry() == self.registry(),
            post.transport_config == self.transport_config,
            answer is Err,
    {
    }

    /// Answers what was read off a connection.
    pub fn answer(&mut self, query: RpcResult<ReceivedQuery<Name>>) -> (out: RpcResult<Vec<u8>>)
        ensures
            old(self).serves(query, *final(self), out),
    {
        match query {
            Err(e) => Err(e),
            Ok(received_query) => self.call(
                received_query.query_bytes.as_slice(),
                &received_query.name,
            ),
        }
    }

    /// Handles one connection: receives one frame, calls the operation that it
    /// names, and sends the reply. Any failure on the way ends the connection and
    /// is returned.
    pub fn handle_connection<I: InternalTransport>(&mut self, transport: &mut Transport<I, Name>) -> (r:
        RpcResult<()>)
        ensures
            final(transport).config == old(transport).config,
            old(self).handles(
                old(transport).internal_transport,
                old(transport).config,
                *final(self),
                final(transport).internal_transport,
                r,
            ),
    {
        let received_query = transport.receive_query();
        let ghost mid = transport.internal_transport;
        let ghost query = received_query;
        let result = self.answer(received_query);
        let ghost answer = result;
        let r = match result {
            Err(e) => Err(e),
            Ok(result_bytes) => transport.respond(result_bytes.as_slice()),
        };
        proof {
            let raw = choose|raw: Result<Vec<u8>, TransportError>| #[trigger]
                old(transport).internal_transport.received(mid, raw) && reads_query(
                    old(transport).config,
                    raw,
                    query,
                );
            assert(old(transport).internal_transport.received(mid, raw));
        }
        r
    }
}

} // verus!
