//! A second small service: a counter, and operations that read it, raise it, greet
//! with it and answer at length.

use vstd::prelude::*;
use vstd::string::StringExecFns;
use crate::error::{RpcError, RpcResult};
use crate::rpc::{Implementation, Rpc, RpcImpl, RpcName};
use crate::RpcDefinition;

verus! {

pub struct HelloWorldState {
    pub i: usize,
}

#[derive(Clone, Copy, Hash, Eq, PartialEq, Debug)]
pub enum HelloWorldRpcName {
    HelloWorld,
    GetI,
    IncrI,
    MassiveRpc,
}

impl RpcName for HelloWorldRpcName {
    open spec fn text(&self) -> Seq<char> {
        match self {
            HelloWorldRpcName::HelloWorld => "HelloWorld"@,
            HelloWorldRpcName::GetI => "GetI"@,
            HelloWorldRpcName::IncrI => "IncrI"@,
            HelloWorldRpcName::MassiveRpc => "MassiveRpc"@,
        }
    }

    fn to_text(&self) -> (s: String) {
        match self {
            HelloWorldRpcName::HelloWorld => String::from_str("HelloWorld"),
            HelloWorldRpcName::GetI => String::from_str("GetI"),
            HelloWorldRpcName::IncrI => String::from_str("IncrI"),
            HelloWorldRpcName::MassiveRpc => String::from_str("MassiveRpc"),
        }
    }

    fn of_text(text: &str) -> (r: Option<Self>) {
        let text = String::from_str(text);
        if text == String::from_str("HelloWorld") {
            Some(HelloWorldRpcName::HelloWorld)
        } else if text == String::from_str("GetI") {
            Some(HelloWorldRpcName::GetI)
        } else if text == String::from_str("IncrI") {
            Some(HelloWorldRpcName::IncrI)
        } else if text == String::from_str("MassiveRpc") {
            Some(HelloWorldRpcName::MassiveRpc)
        } else {
            None
        }
    }

    fn copy(&self) -> (n: Self) {
        *self
    }
}

/// The character of a digit.
pub open spec fn digit(d: nat) -> char {
    if d == 0 {
        '0'
    } else if d == 1 {
        '1'
    } else if d == 2 {
        '2'
    } else if d == 3 {
        '3'
    } else if d == 4 {
        '4'
    } else if d == 5 {
        '5'
    } else if d == 6 {
        '6'
    } else if d == 7 {
        '7'
    } else if d == 8 {
        '8'
    } else {
        '9'
    }
}

/// A number in decimal digits, the highest first, with no leading zero.
pub open spec fn decimal(n: nat) -> Seq<char>
    decreases n,
{
    if n < 10 {
        seq![digit(n)]
    } else {
        decimal(n / 10).push(digit(n % 10))
    }
}

fn digit_text(d: usize) -> (s: &'static str)
    requires
        d < 10,
    ensures
        s@ == seq![digit(d as nat)],
{
    proof {
        reveal_strlit("0");
        reveal_strlit("1");
        reveal_strlit("2");
        reveal_strlit("3");
        reveal_strlit("4");
        reveal_strlit("5");
        reveal_strlit("6");
        reveal_strlit("7");
        reveal_strlit("8");
        reveal_strlit("9");
    }
    let s = if d == 0 {
        "0"
    } else if d == 1 {
        "1"
    } else if d == 2 {
        "2"
    } else if d == 3 {
        "3"
    } else if d == 4 {
        "4"
    } else if d == 5 {
        "5"
    } else if d == 6 {
        "6"
    } else if d == 7 {
        "7"
    } else if d == 8 {
        "8"
    } else {
        "9"
    };
    s
}

/// Writes a number in decimal digits.
pub fn to_decimal(n: usize) -> (s: String)
    ensures
        s@ == decimal(n as nat),
{
    let mut s = String::from_str(digit_text(n % 10));
    let mut rest: usize = n / 10;
    let ghost mut low: Seq<char> = seq![digit((n % 10) as nat)];
    proof {
        lemma_decimal_split(n as nat, low);
    }
    while rest > 0
        invariant
            s@ == low,
            low.len() > 0,
            decimal(n as nat) == (if rest == 0 {
                low
            } else {
                decimal(rest as nat) + low
            }),
        decreases rest,
    {
        let mut next = String::from_str(digit_text(rest % 10));
        next.append(s.as_str());
        proof {
            let d = seq![digit((rest % 10) as nat)];
            if rest >= 10 {
                assert(decimal(rest as nat) == decimal((rest / 10) as nat).push(
                    digit((rest % 10) as nat),
                ));
                assert(decimal((rest / 10) as nat).push(digit((rest % 10) as nat)) + low =~= decimal(
                    (rest / 10) as nat,
                ) + (d + low));
            } else {
                assert(decimal(rest as nat) + low =~= d + low);
            }
            low = d + low;
        }
        s = next;
        rest = rest / 10;
    }
    s
}

proof fn lemma_decimal_split(n: nat, low: Seq<char>)
    requires
        low == seq![digit(n % 10)],
    ensures
        decimal(n) == (if n / 10 == 0 {
            low
        } else {
            decimal(n / 10) + low
        }),
{
    if n >= 10 {
        assert(decimal(n / 10).push(digit(n % 10)) =~= decimal(n / 10) + low);
    }
}

/// The greeting: a fixed text, the counter, a colon, the query.
pub open spec fn greeting(i: usize, query: Seq<char>) -> Seq<char> {
    "Hello world: "@ + decimal(i as nat) + ":"@ + query
}

/// Greets the caller with the counter and the caller's own text.
pub struct HelloWorldRpc {}

impl Implementation<HelloWorldState, String, String> for HelloWorldRpc {
    open spec fn answers(
        &self,
        pre: HelloWorldState,
        query: Seq<char>,
        post: HelloWorldState,
        out: Result<Seq<char>, RpcError>,
    ) -> bool {
        post == pre && out == Ok::<Seq<char>, RpcError>(greeting(pre.i, query))
    }

    fn run(&self, state: &mut HelloWorldState, query: String) -> (out: RpcResult<String>) {
        let mut s = String::from_str("Hello world: ");
        s.append(to_decimal(state.i).as_str());
        s.append(":");
        s.append(query.as_str());
        Ok(s)
    }
}

pub fn make_hello_world_rpc() -> (rpc: Rpc<HelloWorldRpcName, String, String>)
    ensures
        rpc.name == HelloWorldRpcName::HelloWorld,
{
    Rpc::new(HelloWorldRpcName::HelloWorld)
}

pub fn make_hello_world_rpc_impl() -> (rpc_impl: RpcImpl<
    HelloWorldRpcName,
    HelloWorldState,
    String,
    String,
    HelloWorldRpc,
>)
    ensures
        rpc_impl.rpc.name == HelloWorldRpcName::HelloWorld,
{
    RpcImpl::new(HelloWorldRpcName::HelloWorld, HelloWorldRpc {  })
}

/// Reads the counter.
pub struct GetIRpc {}

impl Implementation<HelloWorldState, (), usize> for GetIRpc {
    open spec fn answers(
        &self,
        pre: HelloWorldState,
        query: (),
        post: HelloWorldState,
        out: Result<usize, RpcError>,
    ) -> bool {
        post == pre && out == Ok::<usize, RpcError>(pre.i)
    }

    fn run(&self, state: &mut HelloWorldState, _query: ()) -> (out: RpcResult<usize>) {
        Ok(state.i)
    }
}

pub fn make_get_i_rpc() -> (rpc: Rpc<HelloWorldRpcName, (), usize>)
    ensures
        rpc.name == HelloWorldRpcName::GetI,
{
    Rpc::new(HelloWorldRpcName::GetI)
}

pub fn make_get_i_rpc_impl() -> (rpc_impl: RpcImpl<HelloWorldRpcName, HelloWorldState, (), usize, GetIRpc>)
    ensures
        rpc_impl.rpc.name == HelloWorldRpcName::GetI,
{
    RpcImpl::new(HelloWorldRpcName::GetI, GetIRpc {  })
}

/// Raises the counter by one. A counter that is at its limit stays there, and the
/// call fails.
pub struct IncrIRpc {}

impl IncrIRpc {
    pub fn implement(state: &mut HelloWorldState, _query: ()) -> (out: RpcResult<()>)
        ensures
            old(state).i < usize::MAX ==> final(state).i == old(state).i + 1 && out is Ok,
            old(state).i == usize::MAX ==> *final(state) == *old(state) && out matches Err(
                RpcError::Custom(_),
            ),
    {
        if state.i < usize::MAX {
            state.i += 1;
            Ok(())
        } else {
            Err(RpcError::Custom(String::from_str("the counter is at its limit")))
        }
    }
}

impl Implementation<HelloWorldState, (), ()> for IncrIRpc {
    open spec fn answers(
        &self,
        pre: HelloWorldState,
        query: (),
        post: HelloWorldState,
        out: Result<(), RpcError>,
    ) -> bool {
        if pre.i < usize::MAX {
            post.i == pre.i + 1 && out is Ok
        } else {
            post == pre && out matches Err(RpcError::Custom(_))
        }
    }

    fn run(&self, state: &mut HelloWorldState, query: ()) -> (out: RpcResult<()>) {
        Self::implement(state, query)
    }
}

impl RpcDefinition<HelloWorldRpcName, HelloWorldState, (), ()> for IncrIRpc {
    open spec fn name_text() -> Seq<char> {
        "IncrI"@
    }

    fn client() -> (rpc: Rpc<HelloWorldRpcName, (), ()>) {
        Rpc::new(HelloWorldRpcName::IncrI)
    }

    fn server() -> (rpc_impl: RpcImpl<HelloWorldRpcName, HelloWorldState, (), (), Self>) {
        RpcImpl::new(HelloWorldRpcName::IncrI, IncrIRpc {  })
    }
}

/// Answers with as many ones as the query asks for.
pub struct MassiveRpc {}

impl MassiveRpc {
    pub fn implement(_state: &mut HelloWorldState, query: usize) -> (out: RpcResult<Vec<u32>>)
        ensures
            *final(_state) == *old(_state),
            out matches Ok(v) && v@ == Seq::new(query as nat, |i: int| 1u32),
    {
        let mut v: Vec<u32> = Vec::new();
        let mut i: usize = 0;
        while i < query
            invariant
                i <= query,
                v@ == Seq::new(i as nat, |j: int| 1u32),
            decreases query - i,
        {
            v.push(1u32);
            i += 1;
        }
        Ok(v)
    }
}

impl Implementation<HelloWorldState, usize, Vec<u32>> for MassiveRpc {
    open spec fn answers(
        &self,
        pre: HelloWorldState,
        query: usize,
        post: HelloWorldState,
        out: Result<Seq<u32>, RpcError>,
    ) -> bool {
        post == pre && out == Ok::<Seq<u32>, RpcError>(Seq::new(query as nat, |i: int| 1u32))
    }

    fn run(&self, state: &mut HelloWorldState, query: usize) -> (out: RpcResult<Vec<u32>>) {
        let out = Self::implement(state, query);
        assert(out->Ok_0.deep_view() =~= out->Ok_0@);
        out
    }
}

impl RpcDefinition<HelloWorldRpcName, HelloWorldState, usize, Vec<u32>> for MassiveRpc {
    open spec fn name_text() -> Seq<char> {
        "MassiveRpc"@
    }

    fn client() -> (rpc: Rpc<HelloWorldRpcName, usize, Vec<u32>>) {
        Rpc::new(HelloWorldRpcName::MassiveRpc)
    }

    fn server() -> (rpc_impl: RpcImpl<HelloWorldRpcName, HelloWorldState, usize, Vec<u32>, Self>) {
        RpcImpl::new(HelloWorldRpcName::MassiveRpc, MassiveRpc {  })
    }
}

} // verus!
