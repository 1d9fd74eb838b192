//! The text form of the envelopes. The JSON codec and the layout of the
//! JSON-RPC objects are the work of `serde_json` and `jsonrpc_core`; what they
//! return is taken on trust here.

use crate::error::RemoteError;
use crate::kernel::{
    CallView, Id, Output, Params, ParamsView, Response, ResponseView, Version,
};
use jsonrpc_core::types::to_string;
use jsonrpc_core::{
    Call as WireCall, Id as WireId, MethodCall, Notification, Output as WireOutput,
    Params as WireParams, Request as WireRequest, Response as WireResponse,
    Version as WireVersion,
};
use serde_json::from_str;
use vstd::prelude::*;

verus! {

/// A JSON value of `serde_json`. It is carried through as it came: nothing
/// is known here of what it holds.
#[verifier::external_type_specification]
#[verifier::external_body]
pub struct ExValue(serde_json::Value);

/// The JSON text of the request that holds the one call `call`, as
/// `jsonrpc_core` and `serde_json` write it; `None` where they write none.
pub uninterp spec fn request_text(call: CallView) -> Option<Seq<char>>;

/// The call that is made of these parts: a method call where there is an
/// identifier, a notification where there is none.
pub open spec fn call_view(
    jsonrpc: Option<Version>,
    method: Seq<char>,
    params: ParamsView,
    id: Option<Id>,
) -> CallView {
    match id {
        Some(id) => CallView::MethodCall { jsonrpc, method, params, id: id@ },
        None => CallView::Notification { jsonrpc, method, params },
    }
}

/// The response that the JSON text `text` stands for, as `serde_json` and
/// `jsonrpc_core` read it; `None` where they read none.
pub uninterp spec fn response_of_text(text: Seq<char>) -> Option<ResponseView>;

/// Builds the call of `jsonrpc_core` that holds these fields (a `MethodCall`
/// where there is an identifier, a `Notification` where there is none), wraps
/// it in `jsonrpc_core::Request::Single`, and calls
/// `jsonrpc_core::types::to_string` on it, which is `serde_json::to_string`.
/// What is taken on trust: whether there is a text, and which, depends on the
/// fields alone.
#[verifier::external_body]
pub(crate) fn write_request(
    jsonrpc: Option<Version>,
    method: String,
    params: Params,
    id: Option<Id>,
) -> (text: Option<String>)
    ensures
        text matches Some(t) ==> request_text(call_view(jsonrpc, method@, params@, id)) == Some(t@),
        text is None ==> request_text(call_view(jsonrpc, method@, params@, id)) is None,
{
    let jsonrpc = jsonrpc.map(|_| WireVersion::V2);
    let params = match params {
        Params::Absent => WireParams::None,
        Params::Array(values) => WireParams::Array(values),
    };
    let id = id.map(|id| match id {
        Id::Null => WireId::Null,
        Id::Num(n) => WireId::Num(n),
        Id::Str(s) => WireId::Str(s),
    });
    let call = match id {
        Some(id) => WireCall::MethodCall(MethodCall { jsonrpc, method, params, id }),
        None => WireCall::Notification(Notification { jsonrpc, method, params }),
    };
    to_string(&WireRequest::Single(call)).ok()
}

/// Calls `serde_json::from_str` for a `jsonrpc_core::Response` and hands
/// what it returns over to a `Response`: the result of each success, and of
/// each failure the error with its code as a number
/// (`jsonrpc_core::ErrorCode::code`), its message and its data. What is taken
/// on trust: whether the text is a response, and which, depends on the text
/// alone.
#[verifier::external_body]
pub(crate) fn read_response(text: &str) -> (response: Option<Response>)
    ensures
        response matches Some(r) ==> response_of_text(text@) == Some(r@),
        response is None ==> response_of_text(text@) is None,
{
    let output = |o: WireOutput| match o {
        WireOutput::Success(s) => Output::Success { result: s.result },
        WireOutput::Failure(f) => Output::Failure {
            error: RemoteError {
                code: f.error.code.code(),
                message: f.error.message,
                data: f.error.data,
            },
        },
    };
    Some(match from_str::<WireResponse>(text).ok()? {
        WireResponse::Single(o) => Response::Single(output(o)),
        WireResponse::Batch(os) => Response::Batch(os.into_iter().map(output).collect()),
    })
}

} // verus!
