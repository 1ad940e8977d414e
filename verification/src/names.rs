//! A small service built on the library: a list of names that callers add to and read.

use vstd::prelude::*;
use vstd::string::StringExecFns;
use crate::error::{RpcError, RpcResult};
use crate::rpc::{Implementation, Rpc, RpcImpl, RpcName};
use crate::RpcDefinition;

verus! {

/// What the service keeps.
pub struct ServerState {
    pub names: Vec<String>,
}

/// The names of the service's operations.
#[derive(PartialEq, Eq, Hash, Clone, Copy, Debug)]
pub enum RpcId {
    AddName,
    GetNames,
}

impl RpcName for RpcId {
    open spec fn text(&self) -> Seq<char> {
        match self {
            RpcId::AddName => "AddName"@,
            RpcId::GetNames => "GetNames"@,
        }
    }

    fn to_text(&self) -> (s: String) {
        match self {
            RpcId::AddName => String::from_str("AddName"),
            RpcId::GetNames => String::from_str("GetNames"),
        }
    }

    fn of_text(text: &str) -> (r: Option<Self>) {
        let text = String::from_str(text);
        if text == String::from_str("AddName") {
            Some(RpcId::AddName)
        } else if text == String::from_str("GetNames") {
            Some(RpcId::GetNames)
        } else {
            None
        }
    }

    fn copy(&self) -> (n: Self) {
        *self
    }
}

/// Adds one name to the list.
pub struct AddName {}

impl AddName {
    pub fn name() -> (id: RpcId)
        ensures
            id == RpcId::AddName,
    {
        RpcId::AddName
    }

    pub fn implement(state: &mut ServerState, query: String) -> (out: RpcResult<()>)
        ensures
            final(state).names@ == old(state).names@.push(query),
            out is Ok,
    {
        state.names.push(query);
        Ok(())
    }
}

impl Implementation<ServerState, String, ()> for AddName {
    /// The list grows by the query, at its end; the answer is empty.
    open spec fn answers(
        &self,
        pre: ServerState,
        query: Seq<char>,
        post: ServerState,
        out: Result<(), RpcError>,
    ) -> bool {
        post.names.deep_view() == pre.names.deep_view().push(query) && out is Ok
    }

    fn run(&self, state: &mut ServerState, query: String) -> (out: RpcResult<()>) {
        let out = Self::implement(state, query);
        assert(state.names.deep_view() =~= old(state).names.deep_view().push(query@));
        out
    }
}

impl RpcDefinition<RpcId, ServerState, String, ()> for AddName {
    open spec fn name_text() -> Seq<char> {
        "AddName"@
    }

    fn client() -> (rpc: Rpc<RpcId, String, ()>) {
        Rpc::new(Self::name())
    }

    fn server() -> (rpc_impl: RpcImpl<RpcId, ServerState, String, (), Self>) {
        RpcImpl::new(Self::name(), AddName {  })
    }
}

/// Reads the whole list.
pub struct GetNames {}

impl GetNames {
    pub fn name() -> (id: RpcId)
        ensures
            id == RpcId::GetNames,
    {
        RpcId::GetNames
    }

    pub fn implement(state: &mut ServerState, _query: ()) -> (out: RpcResult<Vec<String>>)
        ensures
            *final(state) == *old(state),
            out matches Ok(names) && names.deep_view() == old(state).names.deep_view(),
    {
        let mut names: Vec<String> = Vec::new();
        let mut i: usize = 0;
        while i < state.names.len()
            invariant
                i <= state.names@.len(),
                names@.len() == i,
                forall|j: int| 0 <= j < i ==> (#[trigger] names@[j])@ == state.names@[j]@,
            decreases state.names@.len() - i,
        {
            names.push(state.names[i].clone());
            i += 1;
        }
        Ok(names)
    }
}

impl Implementation<ServerState, (), Vec<String>> for GetNames {
    /// The list stays as it is; the answer is the list.
    open spec fn answers(
        &self,
        pre: ServerState,
        query: (),
        post: ServerState,
        out: Result<Seq<Seq<char>>, RpcError>,
    ) -> bool {
        post == pre && out == Ok::<Seq<Seq<char>>, RpcError>(pre.names.deep_view())
    }

    fn run(&self, state: &mut ServerState, query: ()) -> (out: RpcResult<Vec<String>>) {
        Self::implement(state, query)
    }
}

impl RpcDefinition<RpcId, ServerState, (), Vec<String>> for GetNames {
    open spec fn name_text() -> Seq<char> {
        "GetNames"@
    }

    fn client() -> (rpc: Rpc<RpcId, (), Vec<String>>) {
        Rpc::new(Self::name())
    }

    fn server() -> (rpc_impl: RpcImpl<RpcId, ServerState, (), Vec<String>, Self>) {
        RpcImpl::new(Self::name(), GetNames {  })
    }
}

} // verus!
