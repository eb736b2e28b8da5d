//! The request/response pipeline every typed RPC call funnels through.
//!
//! A call renders its positional arguments into the request's parameter
//! array text, hands the request to a transport, and settles the
//! transport's outcome into either the reply's result value or a typed
//! failure.  The transport round trip itself is the caller's collaborator;
//! everything that decides on its outcome is here and verified.

use crate::error::Error;
use crate::error::RpcFailure;
use crate::error::TransportKind;
use crate::text::dec_digits;
use crate::text::u16_string;
use crate::wire::WireValue;
use vstd::prelude::*;
use vstd::string::*;

verus! {

/// The body of a JSON-RPC reply as the transport hands it back: at most one
/// of a result value and a daemon error object.
#[derive(Debug, PartialEq, Eq)]
pub struct RpcResponse {
    pub result: Option<WireValue>,
    pub error: Option<RpcFailure>,
}

/// Settle a transport outcome into the call's result.  A transport failure
/// is propagated as-is, before the reply is even looked at; only after a
/// successful round trip is the reply read, where a daemon error object
/// wins over any result and an absent result stands for JSON null.
pub fn settle_response(outcome: Result<RpcResponse, TransportKind>) -> (r: Result<
    WireValue,
    Error,
>)
    ensures
        outcome matches Err(k) ==> r == Err::<WireValue, Error>(Error::Transport(k)),
        outcome matches Ok(resp) ==> (resp.error matches Some(f) ==> r == Err::<
            WireValue,
            Error,
        >(Error::Rpc(f))),
        outcome matches Ok(resp) ==> (resp.error is None ==> (resp.result matches Some(v)
            ==> r == Ok::<WireValue, Error>(v))),
        outcome matches Ok(resp) ==> (resp.error is None && resp.result is None ==> r == Ok::<
            WireValue,
            Error,
        >(WireValue::Unset)),
{
    match outcome {
        Err(k) => Err(Error::Transport(k)),
        Ok(resp) => match resp.error {
            Some(f) => Err(Error::Rpc(f)),
            None => match resp.result {
                Some(v) => Ok(v),
                None => Ok(WireValue::Unset),
            },
        },
    }
}

/// The text a wire value puts on the wire: its JSON text, or `null` for the
/// unset value.
pub open spec fn wire_text(v: WireValue) -> Seq<char> {
    match v {
        WireValue::Unset => "null"@,
        WireValue::Json(s) => s@,
    }
}

/// The values' wire texts joined with commas.
pub open spec fn joined_params(ps: Seq<WireValue>) -> Seq<char>
    decreases ps.len(),
{
    if ps.len() == 0 {
        Seq::empty()
    } else if ps.len() == 1 {
        wire_text(ps[0])
    } else {
        joined_params(ps.drop_last()) + ","@ + wire_text(ps.last())
    }
}

/// The JSON text of a positional parameter array.
pub open spec fn rendered_params(ps: Seq<WireValue>) -> Seq<char> {
    "["@ + joined_params(ps) + "]"@
}

/// Render a positional argument list as the request's JSON parameter array
/// text, an unset value rendered as JSON null.
pub fn render_params(params: &Vec<WireValue>) -> (r: String)
    ensures
        r@ == rendered_params(params@),
{
    let mut acc = String::from_str("[");
    let n: usize = params.len();
    let mut i: usize = 0;
    proof {
        assert(params@.take(0) =~= Seq::<WireValue>::empty());
        assert(acc@ =~= "["@ + joined_params(params@.take(0)));
    }
    while i < n
        invariant
            i <= n,
            n == params@.len(),
            acc@ == "["@ + joined_params(params@.take(i as int)),
        decreases n - i,
    {
        if i > 0 {
            acc.append(",");
        }
        match &params[i] {
            WireValue::Unset => acc.append("null"),
            WireValue::Json(s) => acc.append(s.as_str()),
        }
        proof {
            let prev = params@.take(i as int);
            let cur = params@.take(i + 1);
            assert(cur.drop_last() =~= prev);
            assert(cur.last() == params@[i as int]);
            if i == 0 {
                assert(cur.len() == 1);
                assert(acc@ =~= "["@ + joined_params(cur));
            } else {
                assert(joined_params(cur) == joined_params(prev) + ","@ + wire_text(
                    params@[i as int],
                ));
                assert(acc@ =~= "["@ + joined_params(cur));
            }
        }
        i = i + 1;
    }
    acc.append("]");
    proof {
        assert(params@.take(n as int) =~= params@);
        assert(acc@ =~= rendered_params(params@));
    }
    acc
}

/// The URL of the local daemon's RPC server at a port.
pub open spec fn local_rpc_url(port: u16) -> Seq<char> {
    "http://127.0.0.1:"@ + dec_digits(port as int)
}

/// Render the local daemon URL a dispatcher connects to for a resolved
/// port.
pub fn rpc_url(port: u16) -> (r: String)
    ensures
        r@ == local_rpc_url(port),
{
    let r = String::from_str("http://127.0.0.1:").concat(u16_string(port).as_str());
    proof {
        assert(r@ =~= local_rpc_url(port));
    }
    r
}

} // verus!
