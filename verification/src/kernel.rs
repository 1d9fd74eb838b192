//! The envelope protocol: the calls and responses of JSON-RPC 2.0, and what
//! every typed request can do with them.

use crate::error::{Error, ErrorView, RemoteError, RemoteErrorView};
use crate::text::{decimal, decimal_of};
use crate::wire::{read_response, request_text, response_of_text, write_request};
use serde_json::Value;
use vstd::prelude::*;
use vstd::std_specs::convert::{TryFromSpec, TryIntoSpec};
use vstd::string::StringExecFns;

verus! {

/// The version tag of the protocol.
#[derive(Clone, Copy, Debug, PartialEq, Eq)]
pub enum Version {
    /// JSON-RPC 2.0.
    V2,
}

/// The identifier that ties a response to its call.
#[derive(Debug, PartialEq, Eq)]
pub enum Id {
    /// The null identifier.
    Null,
    /// A number.
    Num(u64),
    /// A string.
    Str(String),
}

pub enum IdView {
    Null,
    Num(u64),
    Str(Seq<char>),
}

impl View for Id {
    type V = IdView;

    open spec fn view(&self) -> IdView {
        match self {
            Id::Null => IdView::Null,
            Id::Num(n) => IdView::Num(*n),
            Id::Str(s) => IdView::Str(s@),
        }
    }
}

impl Clone for Id {
    fn clone(&self) -> (copy: Self)
        ensures
            copy@ == self@,
    {
        match self {
            Id::Null => Id::Null,
            Id::Num(n) => Id::Num(*n),
            Id::Str(s) => Id::Str(s.clone()),
        }
    }
}

/// The parameters of a call.
#[derive(Debug, PartialEq)]
pub enum Params {
    /// No parameters at all; this is not an empty array.
    Absent,
    /// The encoded parameters, in the order of declaration.
    Array(Vec<Value>),
}

pub enum ParamsView {
    Absent,
    Array(Seq<Value>),
}

impl View for Params {
    type V = ParamsView;

    open spec fn view(&self) -> ParamsView {
        match self {
            Params::Absent => ParamsView::Absent,
            Params::Array(values) => ParamsView::Array(values@),
        }
    }
}

/// One call of a remote method.
#[derive(Debug, PartialEq)]
pub enum Call {
    /// A call that expects a response.
    MethodCall { jsonrpc: Option<Version>, method: String, params: Params, id: Id },
    /// A call that expects none.
    Notification { jsonrpc: Option<Version>, method: String, params: Params },
}

pub enum CallView {
    MethodCall { jsonrpc: Option<Version>, method: Seq<char>, params: ParamsView, id: IdView },
    Notification { jsonrpc: Option<Version>, method: Seq<char>, params: ParamsView },
}

impl View for Call {
    type V = CallView;

    open spec fn view(&self) -> CallView {
        match self {
            Call::MethodCall { jsonrpc, method, params, id } => CallView::MethodCall {
                jsonrpc: *jsonrpc,
                method: method@,
                params: params@,
                id: id@,
            },
            Call::Notification { jsonrpc, method, params } => CallView::Notification {
                jsonrpc: *jsonrpc,
                method: method@,
                params: params@,
            },
        }
    }
}

/// What is sent to the server: one call, or several at once.
#[derive(Debug, PartialEq)]
pub enum Request {
    /// A single call.
    Single(Call),
    /// A batch of calls.
    Batch(Vec<Call>),
}

pub enum RequestView {
    Single(CallView),
    Batch(Seq<CallView>),
}

impl View for Request {
    type V = RequestView;

    open spec fn view(&self) -> RequestView {
        match self {
            Request::Single(call) => RequestView::Single(call@),
            Request::Batch(calls) => RequestView::Batch(calls@.map_values(|call: Call| call@)),
        }
    }
}

/// The answer to one call: what a client with a single call under way reads
/// of it. The version tag and the identifier that came with the answer are
/// not kept.
#[derive(Debug, PartialEq)]
pub enum Output {
    /// The call succeeded, with this result.
    Success { result: Value },
    /// The call failed, with this error.
    Failure { error: RemoteError },
}

pub enum OutputView {
    Success { result: Value },
    Failure { error: RemoteErrorView },
}

impl View for Output {
    type V = OutputView;

    open spec fn view(&self) -> OutputView {
        match self {
            Output::Success { result } => OutputView::Success { result: *result },
            Output::Failure { error } => OutputView::Failure { error: error@ },
        }
    }
}

/// What the server sends back: the answer to one call, or several at once.
#[derive(Debug, PartialEq)]
pub enum Response {
    /// The answer to a single call.
    Single(Output),
    /// The answers to a batch of calls.
    Batch(Vec<Output>),
}

pub enum ResponseView {
    Single(OutputView),
    Batch(Seq<OutputView>),
}

impl View for Response {
    type V = ResponseView;

    open spec fn view(&self) -> ResponseView {
        match self {
            Response::Single(output) => ResponseView::Single(output@),
            Response::Batch(outputs) => ResponseView::Batch(
                outputs@.map_values(|output: Output| output@),
            ),
        }
    }
}

/// What every call carries besides its method and parameters.
#[derive(Debug, PartialEq, Eq)]
pub struct CommonPart {
    /// The version tag of the protocol.
    pub jsonrpc: Option<Version>,
    /// The identifier of the call; a call without one is a notification.
    pub id_opt: Option<Id>,
}

pub struct CommonPartView {
    pub jsonrpc: Option<Version>,
    pub id_opt: Option<IdView>,
}

impl View for CommonPart {
    type V = CommonPartView;

    open spec fn view(&self) -> CommonPartView {
        CommonPartView {
            jsonrpc: self.jsonrpc,
            id_opt: match self.id_opt {
                Some(id) => Some(id@),
                None => None,
            },
        }
    }
}

impl Clone for CommonPart {
    fn clone(&self) -> (copy: Self)
        ensures
            copy@ == self@,
    {
        CommonPart {
            jsonrpc: self.jsonrpc,
            id_opt: match &self.id_opt {
                Some(id) => Some(id.clone()),
                None => None,
            },
        }
    }
}

impl Default for CommonPart {
    fn default() -> (c: Self)
        ensures
            c@ == (CommonPartView { jsonrpc: Some(Version::V2), id_opt: Some(IdView::Num(0)) }),
    {
        Self::num(0)
    }
}

impl CommonPart {
    /// The common part of a call of the current version with a number as its
    /// identifier.
    pub fn num(n: u64) -> (c: Self)
        ensures
            c@ == (CommonPartView { jsonrpc: Some(Version::V2), id_opt: Some(IdView::Num(n)) }),
    {
        Self { jsonrpc: Some(Version::V2), id_opt: Some(Id::Num(n)) }
    }

    /// The common part of a call of the current version with a string as its
    /// identifier.
    pub fn str(s: String) -> (c: Self)
        ensures
            c@ == (CommonPartView { jsonrpc: Some(Version::V2), id_opt: Some(IdView::Str(s@)) }),
    {
        Self { jsonrpc: Some(Version::V2), id_opt: Some(Id::Str(s)) }
    }
}

/// The message of the error for a parameter that could not be encoded: it
/// names the position of the parameter, counted from zero.
pub open spec fn position_message(position: nat) -> Seq<char> {
    "failed to encode the parameter at position "@ + decimal_of(position)
}

/// Whether `i` is the position of the first field that failed to encode.
pub open spec fn is_first_failure<E>(fields: Seq<Result<Value, E>>, i: int) -> bool {
    &&& 0 <= i < fields.len()
    &&& fields[i] is Err
    &&& forall|j: int| 0 <= j < i ==> (#[trigger] fields[j]) is Ok
}

/// Whether every field was encoded.
pub open spec fn all_encoded<E>(fields: Seq<Result<Value, E>>) -> bool {
    forall|i: int| 0 <= i < fields.len() ==> (#[trigger] fields[i]) is Ok
}

/// The encoded values of fields that were all encoded: as many as there are
/// fields, each at the position of its field.
pub open spec fn encoded_values<E>(fields: Seq<Result<Value, E>>) -> Seq<Value> {
    Seq::new(fields.len(), |i: int| fields[i]->Ok_0)
}

impl Params {
    /// The parameters of a call, from what encoding each argument gave, in
    /// the order of declaration. No argument gives no parameters, never an
    /// empty array. Where every argument was encoded, the array holds the
    /// encoded values, as many as there are arguments and in their order.
    /// Where one was not, the whole fails, and the error names the position
    /// of the first that was not.
    pub fn from_fields<E>(fields: Vec<Result<Value, E>>) -> (r: Result<
        Params,
        Error,
    >)
        ensures
            fields@.len() == 0 ==> (r matches Ok(params) && params@ == ParamsView::Absent),
            fields@.len() > 0 && all_encoded(fields@) ==> (r matches Ok(params) && params@
                == ParamsView::Array(encoded_values(fields@))),
            forall|i: int|
                is_first_failure(fields@, i) ==> (r matches Err(e) && e@ == ErrorView::Encoding(
                    position_message(i as nat),
                )),
            r is Ok <==> all_encoded(fields@),
    {
        if fields.len() == 0 {
            return Ok(Params::Absent);
        }
        let mut values: Vec<Value> = Vec::new();
        let ghost all = fields@;
        for field in it: fields.into_iter()
            invariant
                it.seq() == all,
                values@.len() == it.index(),
                forall|j: int| 0 <= j < it.index() ==> Ok::<Value, E>(#[trigger] values@[j]) == all[j],
        {
            match field {
                Ok(value) => {
                    values.push(value);
                },
                Err(_) => {
                    let position = values.len();
                    let mut message = String::from_str(
                        "failed to encode the parameter at position ",
                    );
                    message.append(decimal(position as u64).as_str());
                    assert forall|j: int| 0 <= j < position implies (#[trigger] all[j]) is Ok by {
                        assert(Ok::<Value, E>(values@[j]) == all[j]);
                    }
                    assert forall|i: int| is_first_failure(all, i) implies i == position by {
                        assert(all[position as int] is Err);
                    }
                    return Err(Error::Encoding(message));
                },
            }
        }
        assert forall|i: int| 0 <= i < all.len() implies (#[trigger] all[i]) is Ok by {
            assert(Ok::<Value, E>(values@[i]) == all[i]);
        }
        assert(values@ =~= encoded_values(all));
        Ok(Params::Array(values))
    }
}

/// The call of `method` with `params` that the common part `c` asks for: a
/// method call where `c` has an identifier, a notification where it has none.
pub open spec fn call_of(c: CommonPartView, method: Seq<char>, params: ParamsView) -> CallView {
    match c.id_opt {
        Some(id) => CallView::MethodCall { jsonrpc: c.jsonrpc, method, params, id },
        None => CallView::Notification { jsonrpc: c.jsonrpc, method, params },
    }
}

/// Whether `call` is a call of `method` that the common part `c` asks for,
/// whatever its parameters.
pub open spec fn is_call_of(call: CallView, c: CommonPartView, method: Seq<char>) -> bool {
    exists|params: ParamsView| call == #[trigger] call_of(c, method, params)
}

/// What a response gives the caller of a single call: the result of a
/// success, the error of a failure, and for a batch the error that this
/// client has for every batch.
pub open spec fn result_of(response: ResponseView) -> Result<Value, ErrorView> {
    match response {
        ResponseView::Single(OutputView::Success { result }) => Ok(result),
        ResponseView::Single(OutputView::Failure { error }) => Err(ErrorView::Protocol(error)),
        ResponseView::Batch(_) => Err(ErrorView::Custom("could not be a batch response"@)),
    }
}

impl Call {
    /// The call of `method` with `params` that the common part asks for.
    pub fn new(c: CommonPart, method: String, params: Params) -> (call: Call)
        ensures
            call@ == call_of(c@, method@, params@),
    {
        let CommonPart { jsonrpc, id_opt } = c;
        match id_opt {
            Some(id) => Call::MethodCall { jsonrpc, method, params, id },
            None => Call::Notification { jsonrpc, method, params },
        }
    }

    /// The call of `method` that the common part asks for, from what the
    /// conversion of the request into parameters gave: the call where it gave
    /// parameters, an encoding error where it failed.
    pub fn assemble<E>(c: CommonPart, method: String, params: Result<Params, E>) -> (r:
        Result<Call, Error>)
        ensures
            params matches Ok(p) ==> (r matches Ok(call) && call@ == call_of(c@, method@, p@)),
            params is Err ==> (r matches Err(e) && e@ == ErrorView::Encoding(
                "failed to parse a request core"@,
            )),
    {
        match params {
            Ok(p) => Ok(Call::new(c, method, p)),
            Err(_) => Err(Error::serde("failed to parse a request core")),
        }
    }

    /// The text of the request that holds this one call: what the codec
    /// writes, or an encoding error where it writes nothing.
    pub fn to_text(self) -> (r: Result<String, Error>)
        ensures
            request_text(self@) matches Some(text) ==> (r matches Ok(t) && t@ == text),
            request_text(self@) is None ==> (r matches Err(e) && e@ == ErrorView::Encoding(
                "failed to convert a single request to string"@,
            )),
    {
        let written = match self {
            Call::MethodCall { jsonrpc, method, params, id } => write_request(
                jsonrpc,
                method,
                params,
                Some(id),
            ),
            Call::Notification { jsonrpc, method, params } => write_request(
                jsonrpc,
                method,
                params,
                None,
            ),
        };
        match written {
            Some(text) => Ok(text),
            None => Err(Error::serde("failed to convert a single request to string")),
        }
    }
}

impl Response {
    /// The response that a text stands for: what the codec reads, or an
    /// encoding error where the text is no response.
    pub fn from_text(text: &str) -> (r: Result<Response, Error>)
        ensures
            response_of_text(text@) matches Some(response) ==> (r matches Ok(read) && read@
                == response),
            response_of_text(text@) is None ==> (r matches Err(e) && e@ == ErrorView::Encoding(
                "failed to parse a response"@,
            )),
    {
        match read_response(text) {
            Some(response) => Ok(response),
            None => Err(Error::serde("failed to parse a response")),
        }
    }

    /// What the response gives the caller of a single call. A batch is
    /// rejected whatever it holds; a failure hands on the error of the server
    /// as it came; a success hands on its result.
    pub fn into_result(self) -> (r: Result<Value, Error>)
        ensures
            r matches Ok(value) ==> result_of(self@) == Ok::<Value, ErrorView>(value),
            r matches Err(e) ==> result_of(self@) == Err::<Value, ErrorView>(e@),
    {
        match self {
            Response::Single(Output::Success { result }) => Ok(result),
            Response::Single(Output::Failure { error }) => Err(Error::Protocol(error)),
            Response::Batch(_) => Err(Error::custom("could not be a batch response")),
        }
    }
}

/// The output of a call, from what decoding its result gave: the output where
/// one was decoded, and where none was, the error that says so.
pub fn decoded_output<O, E>(decoded: Result<O, E>) -> (r: Result<
    O,
    Error,
>)
    ensures
        decoded matches Ok(output) ==> r == Ok::<O, Error>(output),
        decoded is Err ==> (r matches Err(e) && e@ == ErrorView::Custom(
            "failed to parse the result"@,
        )),
{
    match decoded {
        Ok(output) => Ok(output),
        Err(_) => Err(Error::custom("failed to parse the result")),
    }
}

/// What every typed request can do: it names its method, turns into the
/// parameters of a call, and knows the type of what the call gives back.
pub trait JsonRpcRequest: TryInto<Params> + Sized {
    /// What a call of the method gives back.
    type Output: TryFrom<Value>;

    /// The name of the method on the wire.
    open spec fn method_name() -> Seq<char> {
        arbitrary()
    }

    /// The name of the method on the wire.
    fn method() -> (name: &'static str)
        ensures
            name@ == Self::method_name(),
    ;

    /// The text of the request that holds the one call of this method.
    fn to_string(self, c: CommonPart) -> (r: Result<String, Error>)
        ensures
            r matches Ok(text) ==> exists|call: CallView| #[trigger]
                is_call_of(call, c@, Self::method_name()) && request_text(call) == Some(text@),
            r matches Err(e) ==> e@ == ErrorView::Encoding("failed to parse a request core"@) || e@
                == ErrorView::Encoding("failed to convert a single request to string"@),
            <Self as TryIntoSpec<Params>>::obeys_try_into_spec() ==> match self.try_into_spec() {
                Ok(params) => match request_text(call_of(c@, Self::method_name(), params@)) {
                    Some(text) => r matches Ok(t) && t@ == text,
                    None => r matches Err(e) && e@ == ErrorView::Encoding(
                        "failed to convert a single request to string"@,
                    ),
                },
                Err(_) => r matches Err(e) && e@ == ErrorView::Encoding(
                    "failed to parse a request core"@,
                ),
            },
    {
        match self.to_call(c) {
            Ok(call) => call.to_text(),
            Err(e) => Err(e),
        }
    }

    /// The request that holds the one call of this method: never a batch.
    fn to_single_request(self, c: CommonPart) -> (r: Result<Request, Error>)
        ensures
            r matches Ok(request) ==> request@ matches RequestView::Single(call) && is_call_of(
                call,
                c@,
                Self::method_name(),
            ),
            r matches Err(e) ==> e@ == ErrorView::Encoding("failed to parse a request core"@),
            <Self as TryIntoSpec<Params>>::obeys_try_into_spec() ==> match self.try_into_spec() {
                Ok(params) => r matches Ok(request) && request@ == RequestView::Single(
                    call_of(c@, Self::method_name(), params@),
                ),
                Err(_) => r is Err,
            },
    {
        match self.to_call(c) {
            Ok(call) => Ok(Request::Single(call)),
            Err(e) => Err(e),
        }
    }

    /// The call of this method that the common part asks for: a method call
    /// where it has an identifier, a notification where it has none. Where
    /// the request does not turn into parameters, the call fails with an
    /// encoding error.
    fn to_call(self, c: CommonPart) -> (r: Result<Call, Error>)
        ensures
            r matches Ok(call) ==> is_call_of(call@, c@, Self::method_name()),
            r matches Err(e) ==> e@ == ErrorView::Encoding("failed to parse a request core"@),
            <Self as TryIntoSpec<Params>>::obeys_try_into_spec() ==> match self.try_into_spec() {
                Ok(params) => r matches Ok(call) && call@ == call_of(
                    c@,
                    Self::method_name(),
                    params@,
                ),
                Err(_) => r is Err,
            },
    {
        let method = Self::method().to_owned();
        Call::assemble(c, method, self.try_into())
    }

    /// The output of the call that `response` answers. A batch is rejected
    /// whatever it holds, always with the same error. A failure hands on the
    /// error of the server as it came. A success gives the output that its
    /// result decodes to, or the error that says that it does not decode.
    fn parse_single_response(response: Response) -> (r: Result<Self::Output, Error>)
        ensures
            response@ is Batch ==> (r matches Err(e) && e@ == ErrorView::Custom(
                "could not be a batch response"@,
            )),
            response@ matches ResponseView::Single(OutputView::Failure { error }) ==> (r matches Err(
                e,
            ) && e@ == ErrorView::Protocol(error)),
            response@ matches ResponseView::Single(OutputView::Success { result }) ==> {
                &&& r matches Err(e) ==> e@ == ErrorView::Custom("failed to parse the result"@)
                &&& <Self::Output as TryFromSpec<Value>>::obeys_try_from_spec() ==> match <
                    Self::Output as TryFromSpec<Value>
                >::try_from_spec(result) {
                    Ok(output) => r == Ok::<Self::Output, Error>(output),
                    Err(_) => r is Err,
                }
            },
    {
        match response.into_result() {
            Ok(value) => decoded_output(Self::Output::try_from(value)),
            Err(e) => Err(e),
        }
    }
}

} // verus!
