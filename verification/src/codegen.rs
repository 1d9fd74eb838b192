//! The code that the interface compiler emits: for each method a request
//! type, a response type and a builder function, and around them the client
//! that holds the builders.

use crate::definition::{
    ItemTrait, JsonRpcApiDef, JsonRpcApiDefView, JsonRpcClientDef, JsonRpcClientDefView,
    Violation, accepted, client_of, violations_of,
};
use crate::naming::{construct_idents, request_name_of, response_name_of};
use crate::text::{decimal, decimal_of};
use vstd::prelude::*;
use vstd::string::StringExecFns;

verus! {

/// The fields of a request type: the first `n` parameter types, in the
/// order of declaration, each followed by a comma.
pub open spec fn fields_text(inputs: Seq<Seq<char>>, n: nat) -> Seq<char>
    decreases n,
{
    if n == 0 {
        Seq::empty()
    } else {
        fields_text(inputs, (n - 1) as nat) + inputs[n - 1] + ", "@
    }
}

/// The encoding of the first `n` fields of a request, field `0` first: what
/// the emitted conversion hands to `Params::from_fields`.
pub open spec fn encoders_text(n: nat) -> Seq<char>
    decreases n,
{
    if n == 0 {
        Seq::empty()
    } else {
        encoders_text((n - 1) as nat) + "serde_json::to_value(req."@ + decimal_of((n - 1) as nat)
            + "), "@
    }
}

/// The first `n` arguments of a builder function: `v0`, `v1` and so on, each
/// with the type of the parameter at its position.
pub open spec fn arguments_text(inputs: Seq<Seq<char>>, n: nat) -> Seq<char>
    decreases n,
{
    if n == 0 {
        Seq::empty()
    } else {
        arguments_text(inputs, (n - 1) as nat) + "v"@ + decimal_of((n - 1) as nat) + ": "@
            + inputs[n - 1] + ", "@
    }
}

/// The names of the first `n` arguments of a builder function, in order.
pub open spec fn names_text(n: nat) -> Seq<char>
    decreases n,
{
    if n == 0 {
        Seq::empty()
    } else {
        names_text((n - 1) as nat) + "v"@ + decimal_of((n - 1) as nat) + ", "@
    }
}

/// What is emitted for every method whatever its parameters: the response
/// type, which wraps the return type and unwraps to it again, its conversion
/// from a JSON value, and the link from the request type to its method name
/// and its response type.
pub open spec fn common_part_text(
    api: JsonRpcApiDefView,
    request: Seq<char>,
    response: Seq<char>,
) -> Seq<char> {
    "pub struct "@ + response + "("@ + api.output + ");\n"@
        + "impl ::std::convert::From<"@ + response + "> for "@ + api.output + " {\n"@
        + "    fn from(r: "@ + response + ") -> "@ + api.output + " {\n"@
        + "        r.0\n    }\n}\n"@
        + "impl ::std::convert::From<"@ + api.output + "> for "@ + response + " {\n"@
        + "    fn from(o: "@ + api.output + ") -> "@ + response + " {\n"@
        + "        "@ + response + "(o)\n    }\n}\n"@
        + "impl ::std::convert::TryFrom<serde_json::Value> for "@ + response + " {\n"@
        + "    type Error = serde_json::Error;\n"@
        + "    fn try_from(val: serde_json::Value) -> serde_json::Result<Self> {\n"@
        + "        serde_json::from_value(val).map("@ + response + ")\n    }\n}\n"@
        + "impl JsonRpcRequest for "@ + request + " {\n"@
        + "    type Output = "@ + response + ";\n"@
        + "    #[inline]\n    fn method() -> &'static str {\n        \""@ + api.name
        + "\"\n    }\n}\n"@
}

/// The definitions emitted for one method: its request type with the
/// conversion into parameters, then the common part. A method without
/// parameters gets a request without fields, which converts to absent
/// parameters; any other gets a request that holds one field for each
/// parameter and converts them in the order of declaration.
pub open spec fn define_part_text(api: JsonRpcApiDefView) -> Seq<char> {
    let request = request_name_of(api.prefix);
    let response = response_name_of(api.prefix);
    if api.inputs.len() == 0 {
        "#[derive(Debug)]\npub struct "@ + request + " {}\n"@
            + "impl ::std::convert::TryFrom<"@ + request + "> for Params {\n"@
            + "    type Error = Error;\n"@
            + "    fn try_from(_req: "@ + request + ") -> Result<Self> {\n"@
            + "        Ok(Params::Absent)\n    }\n}\n"@
            + common_part_text(api, request, response)
    } else {
        "#[derive(Debug)]\npub struct "@ + request + "("@ + fields_text(
            api.inputs,
            api.inputs.len(),
        ) + ");\n"@
            + "impl ::std::convert::TryFrom<"@ + request + "> for Params {\n"@
            + "    type Error = Error;\n"@
            + "    fn try_from(req: "@ + request + ") -> Result<Self> {\n"@
            + "        Params::from_fields(vec!["@ + encoders_text(api.inputs.len()) + "])\n"@
            + "    }\n}\n"@
            + common_part_text(api, request, response)
    }
}

/// The builder function emitted for one method: it takes the parameters in
/// the order of declaration and returns the request that holds them.
pub open spec fn impl_part_text(api: JsonRpcApiDefView) -> Seq<char> {
    let request = request_name_of(api.prefix);
    if api.inputs.len() == 0 {
        "    pub fn "@ + api.func + "() -> "@ + request + " {\n        "@ + request
            + " {}\n    }\n"@
    } else {
        "    pub fn "@ + api.func + "("@ + arguments_text(api.inputs, api.inputs.len())
            + ") -> "@ + request + " {\n        "@ + request + "("@ + names_text(
            api.inputs.len(),
        ) + ")\n    }\n"@
    }
}

/// The definitions of the first `n` methods, in the order of declaration.
pub open spec fn defs_text(apis: Seq<JsonRpcApiDefView>, n: nat) -> Seq<char>
    decreases n,
{
    if n == 0 {
        Seq::empty()
    } else {
        defs_text(apis, (n - 1) as nat) + define_part_text(apis[n - 1])
    }
}

/// The builder functions of the first `n` methods, in the order of
/// declaration.
pub open spec fn impls_text(apis: Seq<JsonRpcApiDefView>, n: nat) -> Seq<char>
    decreases n,
{
    if n == 0 {
        Seq::empty()
    } else {
        impls_text(apis, (n - 1) as nat) + impl_part_text(apis[n - 1])
    }
}

/// Everything that is emitted for a client: the definitions of all methods,
/// then the client type, then the builder functions as its associated
/// functions.
pub open spec fn client_text(def: JsonRpcClientDefView) -> Seq<char> {
    defs_text(def.apis, def.apis.len()) + def.vis + " struct "@ + def.name + " {}\nimpl "@
        + def.name + " {\n"@ + impls_text(def.apis, def.apis.len()) + "}\n"@
}

fn fields(api: &JsonRpcApiDef) -> (text: String)
    ensures
        text@ == fields_text(api@.inputs, api@.inputs.len()),
{
    let mut text = String::new();
    let n = api.inputs.len();
    let mut i: usize = 0;
    while i < n
        invariant
            n == api.inputs.len(),
            i <= n,
            text@ == fields_text(api@.inputs, i as nat),
        decreases n - i,
    {
        text.append(api.inputs[i].as_str());
        text.append(", ");
        i += 1;
    }
    text
}

fn encoders(n: usize) -> (text: String)
    ensures
        text@ == encoders_text(n as nat),
{
    let mut text = String::new();
    let mut i: usize = 0;
    while i < n
        invariant
            i <= n,
            text@ == encoders_text(i as nat),
        decreases n - i,
    {
        text.append("serde_json::to_value(req.");
        text.append(decimal(i as u64).as_str());
        text.append("), ");
        i += 1;
    }
    text
}

fn arguments(api: &JsonRpcApiDef) -> (text: String)
    ensures
        text@ == arguments_text(api@.inputs, api@.inputs.len()),
{
    let mut text = String::new();
    let n = api.inputs.len();
    let mut i: usize = 0;
    while i < n
        invariant
            n == api.inputs.len(),
            i <= n,
            text@ == arguments_text(api@.inputs, i as nat),
        decreases n - i,
    {
        text.append("v");
        text.append(decimal(i as u64).as_str());
        text.append(": ");
        text.append(api.inputs[i].as_str());
        text.append(", ");
        i += 1;
    }
    text
}

fn names(n: usize) -> (text: String)
    ensures
        text@ == names_text(n as nat),
{
    let mut text = String::new();
    let mut i: usize = 0;
    while i < n
        invariant
            i <= n,
            text@ == names_text(i as nat),
        decreases n - i,
    {
        text.append("v");
        text.append(decimal(i as u64).as_str());
        text.append(", ");
        i += 1;
    }
    text
}

/// Emits what every method gets whatever its parameters.
pub fn construct_jsonrpc_common_part(api: &JsonRpcApiDef, request: &str, response: &str) -> (text:
    String)
    ensures
        text@ == common_part_text(api@, request@, response@),
{
    let output = api.output.as_str();
    let mut text = String::from_str("pub struct ");
    text.append(response);
    text.append("(");
    text.append(output);
    text.append(");\n");
    text.append("impl ::std::convert::From<");
    text.append(response);
    text.append("> for ");
    text.append(output);
    text.append(" {\n");
    text.append("    fn from(r: ");
    text.append(response);
    text.append(") -> ");
    text.append(output);
    text.append(" {\n");
    text.append("        r.0\n    }\n}\n");
    text.append("impl ::std::convert::From<");
    text.append(output);
    text.append("> for ");
    text.append(response);
    text.append(" {\n");
    text.append("    fn from(o: ");
    text.append(output);
    text.append(") -> ");
    text.append(response);
    text.append(" {\n");
    text.append("        ");
    text.append(response);
    text.append("(o)\n    }\n}\n");
    text.append("impl ::std::convert::TryFrom<serde_json::Value> for ");
    text.append(response);
    text.append(" {\n");
    text.append("    type Error = serde_json::Error;\n");
    text.append("    fn try_from(val: serde_json::Value) -> serde_json::Result<Self> {\n");
    text.append("        serde_json::from_value(val).map(");
    text.append(response);
    text.append(")\n    }\n}\n");
    text.append("impl JsonRpcRequest for ");
    text.append(request);
    text.append(" {\n");
    text.append("    type Output = ");
    text.append(response);
    text.append(";\n");
    text.append("    #[inline]\n    fn method() -> &'static str {\n        \"");
    text.append(api.name.as_str());
    text.append("\"\n    }\n}\n");
    text
}

/// Emits the definitions and the builder function of one method.
pub fn construct_jsonrpc_api(api: &JsonRpcApiDef) -> (parts: (String, String))
    ensures
        parts.0@ == define_part_text(api@),
        parts.1@ == impl_part_text(api@),
{
    let (request, response) = construct_idents(api.prefix.as_str());
    let common_part = construct_jsonrpc_common_part(api, request.as_str(), response.as_str());
    let n = api.inputs.len();
    if n == 0 {
        let mut define_part = String::from_str("#[derive(Debug)]\npub struct ");
        define_part.append(request.as_str());
        define_part.append(" {}\n");
        define_part.append("impl ::std::convert::TryFrom<");
        define_part.append(request.as_str());
        define_part.append("> for Params {\n");
        define_part.append("    type Error = Error;\n");
        define_part.append("    fn try_from(_req: ");
        define_part.append(request.as_str());
        define_part.append(") -> Result<Self> {\n");
        define_part.append("        Ok(Params::Absent)\n    }\n}\n");
        define_part.append(common_part.as_str());
        let mut impl_part = String::from_str("    pub fn ");
        impl_part.append(api.func.as_str());
        impl_part.append("() -> ");
        impl_part.append(request.as_str());
        impl_part.append(" {\n        ");
        impl_part.append(request.as_str());
        impl_part.append(" {}\n    }\n");
        (define_part, impl_part)
    } else {
        let mut define_part = String::from_str("#[derive(Debug)]\npub struct ");
        define_part.append(request.as_str());
        define_part.append("(");
        define_part.append(fields(api).as_str());
        define_part.append(");\n");
        define_part.append("impl ::std::convert::TryFrom<");
        define_part.append(request.as_str());
        define_part.append("> for Params {\n");
        define_part.append("    type Error = Error;\n");
        define_part.append("    fn try_from(req: ");
        define_part.append(request.as_str());
        define_part.append(") -> Result<Self> {\n");
        define_part.append("        Params::from_fields(vec![");
        define_part.append(encoders(n).as_str());
        define_part.append("])\n");
        define_part.append("    }\n}\n");
        define_part.append(common_part.as_str());
        let mut impl_part = String::from_str("    pub fn ");
        impl_part.append(api.func.as_str());
        impl_part.append("(");
        impl_part.append(arguments(api).as_str());
        impl_part.append(") -> ");
        impl_part.append(request.as_str());
        impl_part.append(" {\n        ");
        impl_part.append(request.as_str());
        impl_part.append("(");
        impl_part.append(names(n).as_str());
        impl_part.append(")\n    }\n");
        (define_part, impl_part)
    }
}

/// Emits everything for an accepted definition.
pub fn expand(def: &JsonRpcClientDef) -> (text: String)
    ensures
        text@ == client_text(def@),
{
    let mut defs = String::new();
    let mut impls = String::new();
    let n = def.apis.len();
    let mut i: usize = 0;
    while i < n
        invariant
            n == def.apis.len(),
            i <= n,
            defs@ == defs_text(def@.apis, i as nat),
            impls@ == impls_text(def@.apis, i as nat),
        decreases n - i,
    {
        let (define_part, impl_part) = construct_jsonrpc_api(&def.apis[i]);
        defs.append(define_part.as_str());
        impls.append(impl_part.as_str());
        i += 1;
    }
    let mut text = defs;
    text.append(def.vis.as_str());
    text.append(" struct ");
    text.append(def.name.as_str());
    text.append(" {}\nimpl ");
    text.append(def.name.as_str());
    text.append(" {\n");
    text.append(impls.as_str());
    text.append("}\n");
    text
}

/// Compiles an interface definition: checks it, and emits the code of its
/// client where it breaks no rule. A definition that breaks a rule gives
/// every rule it breaks, and no code.
pub fn jsonrpc_client(it: ItemTrait) -> (r: Result<String, Vec<Violation>>)
    ensures
        r is Ok <==> accepted(it@),
        r matches Ok(text) ==> text@ == client_text(client_of(it@)),
        r matches Err(found) ==> found@ == violations_of(it@),
{
    match JsonRpcClientDef::parse_item_trait(it) {
        Ok(def) => Ok(expand(&def)),
        Err(found) => Err(found),
    }
}

} // verus!
