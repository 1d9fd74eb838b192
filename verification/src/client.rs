//! What a transport client does around the HTTP exchange: before it, the body
//! to post; after it, the output or the error that the reply stands for. The
//! exchange itself is the caller's.

use crate::error::{Error, ErrorView, TransportFailure, TransportFailureView};
use crate::kernel::{
    CallView, CommonPart, JsonRpcRequest, OutputView, Params, Response, ResponseView, call_of,
    is_call_of,
};
use crate::wire::{request_text, response_of_text};
use serde_json::Value;
use vstd::prelude::*;
use vstd::std_specs::convert::{TryFromSpec, TryIntoSpec};
use vstd::string::StringExecFns;

verus! {

/// What came back from the server: the HTTP status and the body.
#[derive(Debug, PartialEq, Eq)]
pub struct HttpReply {
    pub status: u16,
    pub body: String,
}

pub struct HttpReplyView {
    pub status: u16,
    pub body: Seq<char>,
}

impl View for HttpReply {
    type V = HttpReplyView;

    open spec fn view(&self) -> HttpReplyView {
        HttpReplyView { status: self.status, body: self.body@ }
    }
}

impl Clone for HttpReply {
    fn clone(&self) -> (copy: Self)
        ensures
            copy@ == self@,
    {
        HttpReply { status: self.status, body: self.body.clone() }
    }
}

/// Whether an HTTP status tells of success: the statuses from 200 to 299.
pub open spec fn is_success(status: u16) -> bool {
    200 <= status <= 299
}

/// The failure that an unsuccessful status stands for.
pub open spec fn status_failure(status: u16) -> TransportFailureView {
    TransportFailureView { status: Some(status), detail: "unsuccessful HTTP status"@ }
}

/// The response that the outcome of an exchange stands for. An exchange that
/// failed gives its failure. A reply with an unsuccessful status gives a
/// transport error that carries the status, whatever the body holds. Any other
/// reply gives the response that its body decodes to, or an encoding error
/// where it decodes to none.
pub open spec fn response_of(
    outcome: Result<HttpReplyView, TransportFailureView>,
) -> Result<ResponseView, ErrorView> {
    match outcome {
        Err(failure) => Err(ErrorView::Transport(failure)),
        Ok(reply) => if !is_success(reply.status) {
            Err(ErrorView::Transport(status_failure(reply.status)))
        } else {
            match response_of_text(reply.body) {
                Some(response) => Ok(response),
                None => Err(ErrorView::Encoding("failed to parse a response"@)),
            }
        },
    }
}

/// The view of the outcome of an exchange.
pub open spec fn outcome_view(
    outcome: Result<HttpReply, TransportFailure>,
) -> Result<HttpReplyView, TransportFailureView> {
    match outcome {
        Ok(reply) => Ok(reply@),
        Err(failure) => Err(failure@),
    }
}

/// The body to post for one call of a method: the text of the request that
/// holds the call.
pub fn outgoing<T: JsonRpcRequest>(content: T, common: CommonPart) -> (r: Result<
    String,
    Error,
>)
    ensures
        r matches Ok(text) ==> exists|call: CallView| #[trigger]
            is_call_of(call, common@, T::method_name()) && request_text(call) == Some(text@),
        r matches Err(e) ==> e@ == ErrorView::Encoding("failed to parse a request core"@) || e@
            == ErrorView::Encoding("failed to convert a single request to string"@),
        <T as TryIntoSpec<Params>>::obeys_try_into_spec() ==> match content.try_into_spec() {
            Ok(params) => match request_text(call_of(common@, T::method_name(), params@)) {
                Some(text) => r matches Ok(t) && t@ == text,
                None => r matches Err(e) && e@ == ErrorView::Encoding(
                    "failed to convert a single request to string"@,
                ),
            },
            Err(_) => r matches Err(e) && e@ == ErrorView::Encoding(
                "failed to parse a request core"@,
            ),
        },
{
    content.to_string(common)
}

/// Reads the outcome of an exchange as a response.
pub fn read_outcome(outcome: Result<HttpReply, TransportFailure>) -> (r:
    Result<Response, Error>)
    ensures
        r matches Ok(response) ==> response_of(outcome_view(outcome)) == Ok::<
            ResponseView,
            ErrorView,
        >(response@),
        r matches Err(e) ==> response_of(outcome_view(outcome)) == Err::<ResponseView, ErrorView>(
            e@,
        ),
{
    match outcome {
        Err(failure) => Err(Error::from(failure)),
        Ok(reply) => {
            if reply.status < 200 || reply.status > 299 {
                Err(
                    Error::Transport(
                        TransportFailure {
                            status: Some(reply.status),
                            detail: String::from_str("unsuccessful HTTP status"),
                        },
                    ),
                )
            } else {
                Response::from_text(reply.body.as_str())
            }
        },
    }
}

/// The output of a call, from the outcome of its exchange. The first thing
/// that goes wrong decides the error: a failed exchange, then an unsuccessful
/// status, then a body that is no response, then what the response itself
/// says.
pub fn incoming<T: JsonRpcRequest>(outcome: Result<HttpReply, TransportFailure>) -> (r:
    Result<T::Output, Error>)
    ensures
        response_of(outcome_view(outcome)) matches Err(e) ==> (r matches Err(err) && err@ == e),
        response_of(outcome_view(outcome)) matches Ok(response) ==> {
            &&& response is Batch ==> (r matches Err(e) && e@ == ErrorView::Custom(
                "could not be a batch response"@,
            ))
            &&& response matches ResponseView::Single(OutputView::Failure { error }) ==> (
            r matches Err(e) && e@ == ErrorView::Protocol(error))
            &&& response matches ResponseView::Single(OutputView::Success { result }) ==> {
                &&& r matches Err(e) ==> e@ == ErrorView::Custom("failed to parse the result"@)
                &&& <T::Output as TryFromSpec<Value>>::obeys_try_from_spec() ==> match <
                    T::Output as TryFromSpec<Value>
                >::try_from_spec(result) {
                    Ok(output) => r == Ok::<T::Output, Error>(output),
                    Err(_) => r is Err,
                }
            }
        },
{
    match read_outcome(outcome) {
        Ok(response) => T::parse_single_response(response),
        Err(e) => Err(e),
    }
}

} // verus!
