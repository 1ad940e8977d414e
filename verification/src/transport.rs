//! The channel between client and server, and what travels on it.

use vstd::prelude::*;
use vstd::string::StringExecFns;
use std::marker::PhantomData;
use crate::error::{into_rpc_result_transport, transported, RpcError, RpcResult, TransportError};
use crate::pickle::{
    error_text, outcome, pickle_pair, pickle_text, pickled_pair, structure_error, text_pickle,
    unpickle_fields, unpickled_fields, unpickled_text, written,
};
use crate::rpc::{RpcName, RpcType, ToFromBytes};

verus! {

/// The [InternalTransport] trait defines the transport layer for RPCs between client and server.
///
/// Each method comes with a relation over the channel before the call, what was
/// handed over, the channel after the call and what came back. A channel over a
/// network can promise nothing of what comes back, so the relations are true of
/// everything unless a channel says more; a channel that is a test double says
/// exactly what it does.
pub trait InternalTransport: Sized {
    open spec fn sent(&self, bytes: Seq<u8>, post: Self, out: Result<(), TransportError>) -> bool {
        true
    }

    open spec fn exchanged(&self, bytes: Seq<u8>, post: Self, out: Result<Vec<u8>, TransportError>) -> bool {
        true
    }

    open spec fn received(&self, post: Self, out: Result<Vec<u8>, TransportError>) -> bool {
        true
    }

    fn send(&mut self, b: &[u8]) -> (out: Result<(), TransportError>)
        ensures
            old(self).sent(b@, *final(self), out),
    ;

    fn send_and_wait_for_response(&mut self, b: &[u8]) -> (out: Result<Vec<u8>, TransportError>)
        ensures
            old(self).exchanged(b@, *final(self), out),
    ;

    fn receive(&mut self) -> (out: Result<Vec<u8>, TransportError>)
        ensures
            old(self).received(*final(self), out),
    ;
}

/// TransportConfig defines how to (de)serialise query/response.
#[non_exhaustive]
#[derive(Clone, Copy, Debug)]
pub enum TransportConfig {
    /// Python's pickle format, as `serde_pickle` writes it by default.
    Pickle,
}

/// The key of a frame's first field.
pub open spec fn name_key() -> Seq<char> {
    "name_bytes"@
}

/// The key of a frame's second field.
pub open spec fn query_key() -> Seq<char> {
    "query_bytes"@
}

/// The value of the first entry with this key.
pub open spec fn field(fields: Seq<(Seq<char>, Seq<u8>)>, key: Seq<char>) -> Option<Seq<u8>>
    decreases fields.len(),
{
    if fields.len() == 0 {
        None
    } else if fields[0].0 == key {
        Some(fields[0].1)
    } else {
        field(fields.drop_first(), key)
    }
}

impl TransportConfig {
    /// The byte form of a value with view `v` under this configuration.
    pub open spec fn encoding<T: RpcType>(self, v: <T as DeepView>::V) -> Option<Seq<u8>> {
        match self {
            TransportConfig::Pickle => T::bytes_of(v),
        }
    }

    /// The view of the value that `bytes` stand for under this configuration.
    pub open spec fn decoding<T: RpcType>(self, bytes: Seq<u8>) -> Option<<T as DeepView>::V> {
        match self {
            TransportConfig::Pickle => T::value_of(bytes),
        }
    }

    /// The byte form of the name with this text: that of the text.
    pub open spec fn name_encoding(self, text: Seq<char>) -> Option<Seq<u8>> {
        match self {
            TransportConfig::Pickle => Some(text_pickle(text)),
        }
    }

    /// The text of the name that `bytes` stand for.
    pub open spec fn name_decoding(self, bytes: Seq<u8>) -> Option<Seq<char>> {
        match self {
            TransportConfig::Pickle => unpickled_text(bytes),
        }
    }

    /// The byte form of the record that holds the two fields of a frame.
    pub open spec fn package_encoding(self, name_bytes: Seq<u8>, query_bytes: Seq<u8>) -> Option<
        Seq<u8>,
    > {
        match self {
            TransportConfig::Pickle => pickled_pair(name_key(), name_bytes, query_key(), query_bytes),
        }
    }

    /// The two fields of the record that `bytes` stand for: the name's bytes, then
    /// the query's. A record that lacks one of them is no frame.
    pub open spec fn package_decoding(self, bytes: Seq<u8>) -> Option<(Seq<u8>, Seq<u8>)> {
        match self {
            TransportConfig::Pickle => match unpickled_fields(bytes) {
                None => None,
                Some(fields) => match (field(fields, name_key()), field(fields, query_key())) {
                    (Some(name_bytes), Some(query_bytes)) => Some((name_bytes, query_bytes)),
                    _ => None,
                },
            },
        }
    }

    /// The frame that carries a query to the operation with this name: the name's
    /// text is encoded, then the record of the name's bytes and the query's.
    pub open spec fn frame(self, text: Seq<char>, query_bytes: Seq<u8>) -> Option<Seq<u8>> {
        match self.name_encoding(text) {
            None => None,
            Some(name_bytes) => self.package_encoding(name_bytes, query_bytes),
        }
    }

    /// The name's text and the query's bytes that a frame carries. The query is
    /// left as it is: its type is known only once the name has found its operation.
    pub open spec fn unframe(self, frame: Seq<u8>) -> Option<(Seq<char>, Seq<u8>)> {
        match self.package_decoding(frame) {
            None => None,
            Some((name_bytes, query_bytes)) => match self.name_decoding(name_bytes) {
                None => None,
                Some(text) => Some((text, query_bytes)),
            },
        }
    }

    pub fn serialize<T: RpcType>(&self, val: &T) -> (r: RpcResult<Vec<u8>>)
        ensures
            written(r) == self.encoding::<T>(val.deep_view()),
            r is Err ==> r->Err_0 is ParseError,
    {
        match self {
            TransportConfig::Pickle => val.to_bytes(),
        }
    }

    pub fn deserialize<T: RpcType>(&self, bytes: &[u8]) -> (r: RpcResult<T>)
        ensures
            outcome(r) == self.decoding::<T>(bytes@),
            r is Err ==> r->Err_0 is ParseError,
    {
        match self {
            TransportConfig::Pickle => T::of_bytes(bytes),
        }
    }

    /// Encodes a name: its text, in the byte form of a string.
    pub fn serialize_name<Name: RpcName>(&self, name: &Name) -> (r: RpcResult<Vec<u8>>)
        ensures
            written(r) == self.name_encoding(name.text()),
            r is Err ==> r->Err_0 is ParseError,
    {
        let text = name.to_text();
        match self {
            TransportConfig::Pickle => match pickle_text(text.as_str()) {
                Ok(bytes) => Ok(bytes),
                Err(e) => Err(RpcError::ParseError(e)),
            },
        }
    }

    /// Decodes a name: the bytes must stand for a string that is the text of a name.
    pub fn deserialize_name<Name: RpcName>(&self, bytes: &[u8]) -> (r: RpcResult<Name>)
        ensures
            r is Err ==> r->Err_0 is ParseError,
            match self.name_decoding(bytes@) {
                None => r is Err,
                Some(text) => match r {
                    Ok(name) => name.text() == text,
                    Err(_) => forall|n: Name| #[trigger] n.text() != text,
                },
            },
    {
        match self {
            TransportConfig::Pickle => match crate::pickle::unpickle_text(bytes) {
                Err(e) => Err(RpcError::ParseError(e)),
                Ok(text) => match Name::of_text(text.as_str()) {
                    Some(name) => Ok(name),
                    None => Err(RpcError::ParseError(structure_error("unknown operation name"))),
                },
            },
        }
    }
}

impl Default for TransportConfig {
    fn default() -> (config: Self)
        ensures
            config == TransportConfig::Pickle,
    {
        TransportConfig::Pickle
    }
}

/// A frame before it is encoded: the bytes of the name and of the query.
pub struct TransportPackage<'a> {
    pub name_bytes: &'a [u8],
    pub query_bytes: &'a [u8],
}

/// A frame after it was decoded.
pub struct TransportPackageOwned {
    pub name_bytes: Vec<u8>,
    pub query_bytes: Vec<u8>,
}

impl<'a> TransportPackage<'a> {
    pub fn to_bytes(&self, config: &TransportConfig) -> (r: RpcResult<Vec<u8>>)
        ensures
            written(r) == config.package_encoding(self.name_bytes@, self.query_bytes@),
            r is Err ==> r->Err_0 is ParseError,
    {
        proof {
            reveal_strlit("name_bytes");
            reveal_strlit("query_bytes");
        }
        match config {
            TransportConfig::Pickle => match pickle_pair(
                "name_bytes",
                self.name_bytes,
                "query_bytes",
                self.query_bytes,
            ) {
                Ok(bytes) => Ok(bytes),
                Err(e) => Err(RpcError::ParseError(e)),
            },
        }
    }
}

/// The views of the entries.
pub open spec fn entries(fields: Seq<(String, Vec<u8>)>) -> Seq<(Seq<char>, Seq<u8>)> {
    Seq::new(fields.len(), |i: int| (fields[i].0@, fields[i].1@))
}

/// Takes the two fields of a frame out of a record's entries: for each key the
/// first entry that has it.
pub fn take_fields(fields: Vec<(String, Vec<u8>)>) -> (r: (Option<Vec<u8>>, Option<Vec<u8>>))
    ensures
        r.0.deep_view() == field(entries(fields@), name_key()),
        r.1.deep_view() == field(entries(fields@), query_key()),
{
    let ghost all = entries(fields@);
    let mut fields = fields;
    let mut name_bytes: Option<Vec<u8>> = None;
    let mut query_bytes: Option<Vec<u8>> = None;
    let first_key = String::from_str("name_bytes");
    let second_key = String::from_str("query_bytes");
    while fields.len() > 0
        invariant
            first_key@ == name_key(),
            second_key@ == query_key(),
            fields@.len() <= all.len(),
            entries(fields@) == all.subrange(0, fields@.len() as int),
            name_bytes.deep_view() == field(
                all.subrange(fields@.len() as int, all.len() as int),
                name_key(),
            ),
            query_bytes.deep_view() == field(
                all.subrange(fields@.len() as int, all.len() as int),
                query_key(),
            ),
        decreases fields.len(),
    {
        let ghost before = fields@;
        let last = fields.pop();
        proof {
            let n = fields@.len() as int;
            assert(all.subrange(n, all.len() as int).drop_first() =~= all.subrange(
                n + 1,
                all.len() as int,
            ));
            assert(all.subrange(n, all.len() as int)[0] == entries(before)[n]);
            reveal_strlit("name_bytes");
            reveal_strlit("query_bytes");
            assert(name_key() != query_key()) by {
                assert(name_key().len() == 10 && query_key().len() == 11);
            }
        }
        match last {
            None => {},
            Some((key, value)) => {
                if key == first_key {
                    name_bytes = Some(value);
                } else if key == second_key {
                    query_bytes = Some(value);
                }
            },
        }
    }
    assert(all.subrange(0, all.len() as int) =~= all);
    (name_bytes, query_bytes)
}

impl TransportPackageOwned {
    pub fn of_bytes(bytes: &[u8], config: &TransportConfig) -> (r: RpcResult<Self>)
        ensures
            r is Err ==> r->Err_0 is ParseError,
            match config.package_decoding(bytes@) {
                None => r is Err,
                Some(fields) => r matches Ok(package) && package.name_bytes@ == fields.0
                    && package.query_bytes@ == fields.1,
            },
    {
        match config {
            TransportConfig::Pickle => match unpickle_fields(bytes) {
                Err(e) => Err(RpcError::ParseError(e)),
                Ok(fields) => {
                    assert(fields.deep_view() =~= entries(fields@)) by {
                        assert forall|i: int| 0 <= i < fields@.len() implies fields.deep_view()[i]
                            == entries(fields@)[i] by {
                            assert(fields@[i].1.deep_view() =~= fields@[i].1@);
                        }
                    }
                    match take_fields(fields) {
                        (Some(name_bytes), Some(query_bytes)) => {
                            assert(name_bytes.deep_view() =~= name_bytes@);
                            assert(query_bytes.deep_view() =~= query_bytes@);
                            Ok(TransportPackageOwned { name_bytes, query_bytes })
                        },
                        (None, _) => Err(
                            RpcError::ParseError(structure_error("missing field `name_bytes`")),
                        ),
                        (_, None) => Err(
                            RpcError::ParseError(structure_error("missing field `query_bytes`")),
                        ),
                    }
                },
            },
        }
    }
}

/// The initial structure handed to the RpcServer: the name of the operation that
/// is asked for, and the query, still in bytes.
pub struct ReceivedQuery<Name: RpcName> {
    pub name: Name,
    pub query_bytes: Vec<u8>,
}

/// What a frame that came off the channel is read as: a failure of the channel is
/// handed on; bytes that are no frame, or a frame for a name that does not exist,
/// are a failure of the codec; any other frame gives its name and its query.
pub open spec fn reads_query<Name: RpcName>(
    config: TransportConfig,
    raw: Result<Vec<u8>, TransportError>,
    r: RpcResult<ReceivedQuery<Name>>,
) -> bool {
    match raw {
        Err(e) => r == Err::<ReceivedQuery<Name>, RpcError>(RpcError::TransportError(e)),
        Ok(bytes) => match config.unframe(bytes@) {
            None => r matches Err(RpcError::ParseError(_)),
            Some((text, query_bytes)) => match r {
                Ok(query) => query.name.text() == text && query.query_bytes@ == query_bytes,
                Err(e) => e is ParseError && forall|n: Name| #[trigger] n.text() != text,
            },
        },
    }
}

impl TransportConfig {
    /// Builds the frame that carries `query_bytes` to the operation `rpc_name`.
    pub fn frame_query<Name: RpcName>(&self, query_bytes: &[u8], rpc_name: &Name) -> (r: RpcResult<
        Vec<u8>,
    >)
        ensures
            written(r) == self.frame(rpc_name.text(), query_bytes@),
            r is Err ==> r->Err_0 is ParseError,
    {
        match self.serialize_name(rpc_name) {
            Err(e) => Err(e),
            Ok(name_bytes) => {
                let package = TransportPackage { name_bytes: name_bytes.as_slice(), query_bytes };
                package.to_bytes(self)
            },
        }
    }

    /// Reads what came off the channel as a query.
    pub fn read_query<Name: RpcName>(&self, raw: Result<Vec<u8>, TransportError>) -> (r: RpcResult<
        ReceivedQuery<Name>,
    >)
        ensures
            reads_query(*self, raw, r),
    {
        match raw {
            Err(e) => Err(RpcError::TransportError(e)),
            Ok(bytes) => match TransportPackageOwned::of_bytes(bytes.as_slice(), self) {
                Err(e) => Err(e),
                Ok(package) => match self.deserialize_name::<Name>(package.name_bytes.as_slice()) {
                    Err(e) => Err(e),
                    Ok(name) => Ok(ReceivedQuery { name, query_bytes: package.query_bytes }),
                },
            },
        }
    }
}

/// The codec gives the text of a name back: the text has a byte form, and the
/// bytes are read as the text.
pub open spec fn name_round_trips(config: TransportConfig, text: Seq<char>) -> bool {
    config.name_encoding(text) matches Some(name_bytes) && config.name_decoding(name_bytes) == Some(text)
}

/// The codec gives a record of two fields back: the record has a byte form, and
/// the bytes are read as a record of just these two entries.
pub open spec fn record_round_trips(config: TransportConfig, name_bytes: Seq<u8>, query_bytes: Seq<u8>) -> bool {
    match config {
        TransportConfig::Pickle => pickled_pair(name_key(), name_bytes, query_key(), query_bytes)
            matches Some(frame) && unpickled_fields(frame) == Some(
            seq![(name_key(), name_bytes), (query_key(), query_bytes)],
        ),
    }
}

/// A frame gives back what was put into it. Where the codec gives back the name's
/// text, and the record of the name's bytes and the query's bytes, unframing the
/// frame of a name and a query gives that name and that query.
pub proof fn lemma_frame_round_trip(config: TransportConfig, text: Seq<char>, query_bytes: Seq<u8>)
    requires
        name_round_trips(config, text),
        record_round_trips(config, config.name_encoding(text)->Some_0, query_bytes),
    ensures
        config.frame(text, query_bytes) matches Some(frame) && config.unframe(frame) == Some(
            (text, query_bytes),
        ),
{
    reveal_strlit("name_bytes");
    reveal_strlit("query_bytes");
    assert(name_key() != query_key()) by {
        assert(name_key().len() == 10 && query_key().len() == 11);
    }
    let name_bytes = config.name_encoding(text)->Some_0;
    let fields = seq![(name_key(), name_bytes), (query_key(), query_bytes)];
    assert(field(fields, name_key()) == Some(name_bytes));
    assert(fields.drop_first() =~= seq![(query_key(), query_bytes)]);
    assert(field(fields.drop_first(), query_key()) == Some(query_bytes));
    assert(field(fields, query_key()) == Some(query_bytes));
}

/// The receiving side reads the frame of a name and a query as that name and that
/// query, under the same conditions on the codec.
pub proof fn lemma_frame_is_read_back<Name: RpcName>(
    config: TransportConfig,
    name: Name,
    query_bytes: Seq<u8>,
    received: Vec<u8>,
    r: RpcResult<ReceivedQuery<Name>>,
)
    requires
        name_round_trips(config, name.text()),
        record_round_trips(config, config.name_encoding(name.text())->Some_0, query_bytes),
        Some(received@) == config.frame(name.text(), query_bytes),
        reads_query(config, Ok(received), r),
    ensures
        r matches Ok(query) && query.name.text() == name.text() && query.query_bytes@ == query_bytes,
{
    lemma_frame_round_trip(config, name.text(), query_bytes);
}

/// Transport for data betweeen client and server, generic over the rpc names and internal transport
/// The majority of the heavy lifting is done by the `internal_transport`, see the definition of
/// the [InternalTransport] trait for more information
pub struct Transport<I, Name> {
    pub internal_transport: I,
    pub name: PhantomData<Name>,
    pub config: TransportConfig,
}

impl<I: InternalTransport, Name: RpcName> Transport<I, Name> {
    pub fn new(internal_transport: I, transport_config: TransportConfig) -> (transport: Self)
        ensures
            transport.internal_transport == internal_transport,
            transport.config == transport_config,
    {
        Self { internal_transport, name: PhantomData, config: transport_config }
    }

    /// Sends a query to the operation `rpc_name` and waits for the reply. Where the
    /// frame cannot be built nothing is sent; else the frame is what the channel is
    /// handed, and what the channel gives back is what is returned.
    pub fn send_query(&mut self, query_bytes: &[u8], rpc_name: &Name) -> (r: RpcResult<Vec<u8>>)
        ensures
            final(self).config == old(self).config,
            match old(self).config.frame(rpc_name.text(), query_bytes@) {
                None => r matches Err(RpcError::ParseError(_)) && final(self).internal_transport
                    == old(self).internal_transport,
                Some(frame) => exists|raw: Result<Vec<u8>, TransportError>|
                    #[trigger] old(self).internal_transport.exchanged(
                        frame,
                        final(self).internal_transport,
                        raw,
                    ) && r == transported(raw),
            },
    {
        match self.config.frame_query(query_bytes, rpc_name) {
            Err(e) => Err(e),
            Ok(package_bytes) => {
                let raw = self.internal_transport.send_and_wait_for_response(package_bytes.as_slice());
                proof {
                    let frame = old(self).config.frame(rpc_name.text(), query_bytes@);
                    assert(old(self).internal_transport.exchanged(
                        frame->Some_0,
                        self.internal_transport,
                        raw,
                    ));
                }
                into_rpc_result_transport(raw)
            },
        }
    }

    /// Waits for one frame and reads it as a query.
    pub fn receive_query(&mut self) -> (r: RpcResult<ReceivedQuery<Name>>)
        ensures
            final(self).config == old(self).config,
            exists|raw: Result<Vec<u8>, TransportError>|
                #[trigger] old(self).internal_transport.received(final(self).internal_transport, raw)
                    && reads_query(old(self).config, raw, r),
    {
        let raw = self.internal_transport.receive();
        assert(old(self).internal_transport.received(self.internal_transport, raw));
        self.config.read_query(raw)
    }

    /// Sends the bytes of a reply.
    pub fn respond(&mut self, bytes: &[u8]) -> (r: RpcResult<()>)
        ensures
            final(self).config == old(self).config,
            exists|raw: Result<(), TransportError>|
                #[trigger] old(self).internal_transport.sent(bytes@, final(self).internal_transport, raw)
                    && r == transported(raw),
    {
        let raw = self.internal_transport.send(bytes);
        assert(old(self).internal_transport.sent(bytes@, self.internal_transport, raw));
        into_rpc_result_transport(raw)
    }
}

/// What the canned transport hands out: its text in the byte form of a string.
pub open spec fn canned_reply(text: Seq<char>, out: Result<Vec<u8>, TransportError>) -> bool {
    out matches Ok(reply) && reply@ == text_pickle(text)
}

/// A transport for tests: it sends nothing, and it answers with one fixed text,
/// when it is asked to receive only as many times as it was told.
pub struct CannedTestingTransport {
    pub always_respond_with: String,
    pub receive_times: usize,
}

impl CannedTestingTransport {
    fn reply(&self) -> (out: Result<Vec<u8>, TransportError>)
        ensures
            canned_reply(self.always_respond_with@, out),
    {
        match pickle_text(self.always_respond_with.as_str()) {
            Ok(bytes) => Ok(bytes),
            Err(e) => Err(TransportError::ReceiveError(error_text(&e))),
        }
    }
}

impl InternalTransport for CannedTestingTransport {
    open spec fn sent(&self, bytes: Seq<u8>, post: Self, out: Result<(), TransportError>) -> bool {
        post == *self && out is Ok
    }

    open spec fn exchanged(&self, bytes: Seq<u8>, post: Self, out: Result<Vec<u8>, TransportError>) -> bool {
        post == *self && canned_reply(self.always_respond_with@, out)
    }

    open spec fn received(&self, post: Self, out: Result<Vec<u8>, TransportError>) -> bool {
        if self.receive_times > 0 {
            &&& post.receive_times == self.receive_times - 1
            &&& post.always_respond_with == self.always_respond_with
            &&& canned_reply(self.always_respond_with@, out)
        } else {
            &&& post == *self
            &&& out matches Err(TransportError::ReceiveError(detail))
            &&& detail@ == "Run out of receive count"@
        }
    }

    fn send(&mut self, _b: &[u8]) -> (out: Result<(), TransportError>) {
        Ok(())
    }

    fn send_and_wait_for_response(&mut self, _b: &[u8]) -> (out: Result<Vec<u8>, TransportError>) {
        self.reply()
    }

    fn receive(&mut self) -> (out: Result<Vec<u8>, TransportError>) {
        if self.receive_times > 0 {
            self.receive_times -= 1;
            self.reply()
        } else {
            Err(TransportError::ReceiveError(String::from_str("Run out of receive count")))
        }
    }
}

} // verus!
