use jsonrpc_sdk::naming::{construct_idents, pascal_case, snake_case};

#[test]
fn pascal_case_of_get_block() {
    assert_eq!(pascal_case("get_block"), "GetBlock");
}

#[test]
fn snake_case_of_get_block() {
    assert_eq!(snake_case("GetBlock"), "get_block");
}

#[test]
fn snake_case_inverts_pascal_case_on_snake_identifiers() {
    for ident in ["get_block", "ping", "a", "send_raw_transaction2", "x9_y"] {
        assert_eq!(snake_case(&pascal_case(ident)), ident);
    }
}

#[test]
fn snake_case_does_not_invert_pascal_case_elsewhere() {
    assert_eq!(snake_case(&pascal_case("getBlock")), "get_block");
    assert_eq!(snake_case(&pascal_case("get__block")), "get_block");
    assert_eq!(snake_case(&pascal_case("_get")), "get");
    assert_eq!(snake_case(&pascal_case("get_")), "get");
    assert_eq!(snake_case(&pascal_case("get_1")), "get1");
}

#[test]
fn pascal_case_drops_every_underscore() {
    assert_eq!(pascal_case(""), "");
    assert_eq!(pascal_case("_"), "");
    assert_eq!(pascal_case("__"), "");
    assert_eq!(pascal_case("_a__b_"), "AB");
    assert_eq!(pascal_case("get_2nd_block"), "Get2ndBlock");
}

#[test]
fn pascal_case_keeps_inner_capitals() {
    assert_eq!(pascal_case("getBlock"), "GetBlock");
    assert_eq!(pascal_case("GET"), "GET");
}

#[test]
fn snake_case_never_starts_with_an_inserted_underscore() {
    assert_eq!(snake_case(""), "");
    assert_eq!(snake_case("A"), "a");
    assert_eq!(snake_case("ABC"), "a_b_c");
    assert_eq!(snake_case("already_snake"), "already_snake");
    assert_eq!(snake_case("get2Block"), "get2_block");
}

#[test]
fn snake_case_beyond_ascii() {
    // An uppercase letter beyond ASCII gets its underscore and is not lowered.
    assert_eq!(snake_case("a\u{c9}b"), "a_\u{c9}b");
    assert_eq!(snake_case("a\u{e9}b"), "a\u{e9}b");
    assert_eq!(pascal_case("\u{e9}_x"), "\u{e9}X");
}

#[test]
fn idents_of_prefix() {
    let (request, response) = construct_idents("GetBlock");
    assert_eq!(request, "GetBlockJsonRpcRequest");
    assert_eq!(response, "GetBlockJsonRpcResponse");
}

#[test]
fn idents_of_empty_prefix() {
    let (request, response) = construct_idents("");
    assert_eq!(request, "JsonRpcRequest");
    assert_eq!(response, "JsonRpcResponse");
}
