//! Pirates - a straightforward ArrrrPC library.
//!
//! A process exposes named operations over shared state; another process calls
//! them over a byte channel. Every operation is described by its name, the type
//! of its query and the type of its response. Names, queries and responses travel
//! in pickle form, a query together with the name of its operation in one frame.
//!
//! An operation is a type that implements [`rpc::Implementation`], the function
//! behind it, and [`RpcDefinition`], which gives it its name. The server side holds
//! operations in an [`RpcServer`]; the client side calls one through an
//! [`RpcClient`] and a [`Transport`]. A transport rides on an
//! [`InternalTransport`], which carries bytes; [`framing`] holds what a channel
//! over a byte stream needs to tell one message from the next.

use vstd::prelude::*;

pub mod client;
pub mod error;
pub mod framing;
pub mod hello;
pub mod names;
pub mod pickle;
pub mod rpc;
pub mod rpc_types;
pub mod server;
pub mod transport;

pub use crate::client::RpcClient;
pub use crate::rpc::Implementation;
pub use crate::rpc::Rpc;
pub use crate::rpc::RpcImpl;
pub use crate::rpc::RpcName;
pub use crate::rpc::RpcType;
pub use crate::rpc::StoredRpc;
pub use crate::rpc::ToFromBytes;
pub use crate::server::RpcServer;
pub use crate::transport::InternalTransport;
pub use crate::transport::ReceivedQuery;
pub use crate::transport::Transport;
pub use crate::transport::TransportConfig;

verus! {

/// An operation, defined once for both sides: `client` is what a caller holds,
/// `server` is what a server registers. Both carry the one name.
pub trait RpcDefinition<Name: RpcName, State, Q: RpcType, R: RpcType>: Implementation<
    State,
    Q,
    R,
> + Sized {
    /// The text of the operation's name.
    spec fn name_text() -> Seq<char>;

    fn client() -> (rpc: Rpc<Name, Q, R>)
        ensures
            rpc.name.text() == Self::name_text(),
    ;

    fn server() -> (rpc_impl: RpcImpl<Name, State, Q, R, Self>)
        ensures
            rpc_impl.rpc.name.text() == Self::name_text(),
    ;
}

} // verus!
