use jsonrpc_sdk::client::{incoming, outgoing, read_outcome, HttpReply};
use jsonrpc_sdk::error::{RemoteError, TransportFailure};
use jsonrpc_sdk::kernel::{Output, Params, Response};
use jsonrpc_sdk::{CommonPart, Error, JsonRpcRequest, Result};
use serde_json::Value;

#[derive(Debug)]
pub struct PingJsonRpcRequest {}
impl ::std::convert::TryFrom<PingJsonRpcRequest> for Params {
    type Error = Error;
    fn try_from(_req: PingJsonRpcRequest) -> Result<Self> {
        Ok(Params::Absent)
    }
}
pub struct PingJsonRpcResponse(String);
impl ::std::convert::From<PingJsonRpcResponse> for String {
    fn from(r: PingJsonRpcResponse) -> String {
        r.0
    }
}
impl ::std::convert::TryFrom<serde_json::Value> for PingJsonRpcResponse {
    type Error = serde_json::Error;
    fn try_from(val: serde_json::Value) -> serde_json::Result<Self> {
        serde_json::from_value(val).map(PingJsonRpcResponse)
    }
}
impl JsonRpcRequest for PingJsonRpcRequest {
    type Output = PingJsonRpcResponse;
    fn method() -> &'static str {
        "ping"
    }
}

#[derive(Debug)]
pub struct AddJsonRpcRequest(i64, i64, );
impl ::std::convert::TryFrom<AddJsonRpcRequest> for Params {
    type Error = Error;
    fn try_from(req: AddJsonRpcRequest) -> Result<Self> {
        Params::from_fields(vec![serde_json::to_value(req.0), serde_json::to_value(req.1), ])
    }
}
pub struct AddJsonRpcResponse(i64);
impl ::std::convert::From<AddJsonRpcResponse> for i64 {
    fn from(r: AddJsonRpcResponse) -> i64 {
        r.0
    }
}
impl ::std::convert::TryFrom<serde_json::Value> for AddJsonRpcResponse {
    type Error = serde_json::Error;
    fn try_from(val: serde_json::Value) -> serde_json::Result<Self> {
        serde_json::from_value(val).map(AddJsonRpcResponse)
    }
}
impl JsonRpcRequest for AddJsonRpcRequest {
    type Output = AddJsonRpcResponse;
    fn method() -> &'static str {
        "add"
    }
}

pub struct Calculator {}
impl Calculator {
    pub fn ping() -> PingJsonRpcRequest {
        PingJsonRpcRequest {}
    }
    pub fn add(v0: i64, v1: i64, ) -> AddJsonRpcRequest {
        AddJsonRpcRequest(v0, v1, )
    }
}

/// A server that answers every body with the same reply, and keeps the body.
struct Mock {
    reply: HttpReply,
    posted: Vec<String>,
}

impl Mock {
    fn answering(status: u16, body: &str) -> Mock {
        Mock { reply: HttpReply { status, body: body.to_owned() }, posted: Vec::new() }
    }

    fn send<T: JsonRpcRequest>(&mut self, content: T, common: CommonPart) -> Result<T::Output> {
        let body = outgoing(content, common)?;
        self.posted.push(body);
        incoming::<T>(Ok(self.reply.clone()))
    }
}

#[test]
fn scenario_ping() {
    let mut mock = Mock::answering(200, "{\"jsonrpc\":\"2.0\",\"result\":\"pong\",\"id\":1}");
    let output = mock.send(Calculator::ping(), CommonPart::num(1)).unwrap();
    assert_eq!(String::from(output), "pong");
    assert_eq!(
        mock.posted,
        vec!["{\"jsonrpc\":\"2.0\",\"method\":\"ping\",\"params\":null,\"id\":1}".to_owned()]
    );
}

#[test]
fn scenario_add() {
    let mut mock = Mock::answering(200, "{\"jsonrpc\":\"2.0\",\"result\":5,\"id\":0}");
    let output = mock.send(Calculator::add(2, 3), CommonPart::default()).unwrap();
    assert_eq!(i64::from(output), 5);
    assert_eq!(
        mock.posted,
        vec!["{\"jsonrpc\":\"2.0\",\"method\":\"add\",\"params\":[2,3],\"id\":0}".to_owned()]
    );
}

#[test]
fn scenario_unsuccessful_status() {
    // The body would decode to a success: it is not looked at.
    let mut mock = Mock::answering(500, "{\"jsonrpc\":\"2.0\",\"result\":5,\"id\":1}");
    match mock.send(Calculator::add(2, 3), CommonPart::num(1)) {
        Err(Error::Transport(failure)) => {
            assert_eq!(
                failure,
                TransportFailure {
                    status: Some(500),
                    detail: "unsuccessful HTTP status".to_owned(),
                }
            );
        },
        _ => panic!("an unsuccessful status was not a transport error"),
    }
}

#[test]
fn scenario_batch() {
    let mut mock = Mock::answering(200, "[{\"jsonrpc\":\"2.0\",\"result\":5,\"id\":1}]");
    match mock.send(Calculator::add(2, 3), CommonPart::num(1)) {
        Err(Error::Custom(msg)) => assert_eq!(msg, "could not be a batch response"),
        _ => panic!("a batch was not rejected as a batch"),
    }
}

#[test]
fn status_bounds() {
    let body = "{\"jsonrpc\":\"2.0\",\"result\":5,\"id\":1}";
    for status in [200u16, 204, 299] {
        let reply = HttpReply { status, body: body.to_owned() };
        assert!(incoming::<AddJsonRpcRequest>(Ok(reply)).is_ok());
    }
    for status in [0u16, 100, 199, 300, 301, 404, 500, u16::MAX] {
        let reply = HttpReply { status, body: body.to_owned() };
        match incoming::<AddJsonRpcRequest>(Ok(reply)) {
            Err(Error::Transport(failure)) => assert_eq!(failure.status, Some(status)),
            _ => panic!("an unsuccessful status was not a transport error"),
        }
    }
}

#[test]
fn failed_exchange_is_a_transport_error() {
    let failure = TransportFailure { status: None, detail: "connection refused".to_owned() };
    match incoming::<AddJsonRpcRequest>(Err(failure.clone())) {
        Err(Error::Transport(carried)) => assert_eq!(carried, failure),
        _ => panic!("a failed exchange was not a transport error"),
    }
}

#[test]
fn body_that_is_no_response_is_an_encoding_error() {
    let reply = HttpReply { status: 200, body: "<html></html>".to_owned() };
    match incoming::<AddJsonRpcRequest>(Ok(reply)) {
        Err(Error::Encoding(msg)) => assert_eq!(msg, "failed to parse a response"),
        _ => panic!("a body that is no response was not an encoding error"),
    }
}

#[test]
fn remote_error_is_a_protocol_error() {
    let body = "{\"jsonrpc\":\"2.0\",\"error\":{\"code\":-32602,\"message\":\"Invalid params\"},\"id\":1}";
    let reply = HttpReply { status: 200, body: body.to_owned() };
    match incoming::<AddJsonRpcRequest>(Ok(reply)) {
        Err(Error::Protocol(remote)) => {
            assert_eq!(
                remote,
                RemoteError { code: -32602, message: "Invalid params".to_owned(), data: None }
            );
        },
        _ => panic!("a remote error was not a protocol error"),
    }
}

#[test]
fn result_of_another_type_is_a_custom_error() {
    let reply = HttpReply {
        status: 200,
        body: "{\"jsonrpc\":\"2.0\",\"result\":\"five\",\"id\":1}".to_owned(),
    };
    match incoming::<AddJsonRpcRequest>(Ok(reply)) {
        Err(Error::Custom(msg)) => assert_eq!(msg, "failed to parse the result"),
        _ => panic!("a result of another type was not a custom error"),
    }
}

#[test]
fn read_outcome_of_a_success() {
    let reply = HttpReply {
        status: 200,
        body: "{\"jsonrpc\":\"2.0\",\"result\":[1,2],\"id\":\"a\"}".to_owned(),
    };
    assert_eq!(
        read_outcome(Ok(reply)).unwrap(),
        Response::Single(Output::Success { result: Value::from(vec![1, 2]) })
    );
}
