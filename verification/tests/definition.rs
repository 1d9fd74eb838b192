use jsonrpc_sdk::definition::{
    FnArg, ItemTrait, JsonRpcApiDef, JsonRpcClientDef, Place, Rule, TraitItem, TraitItemMethod,
    Violation,
};

fn method(ident: &str, inputs: Vec<FnArg>, output: Option<&str>) -> TraitItemMethod {
    TraitItemMethod {
        attrs: 0,
        default: false,
        constness: false,
        unsafety: false,
        asyncness: false,
        abi: None,
        ident: ident.to_owned(),
        generics: 0,
        variadic: false,
        inputs,
        output: output.map(|ty| ty.to_owned()),
    }
}

fn bare(ty: &str) -> FnArg {
    FnArg::Ignored(ty.to_owned())
}

fn definition(items: Vec<TraitItem>) -> ItemTrait {
    ItemTrait {
        vis: "pub".to_owned(),
        unsafety: false,
        auto_token: false,
        ident: "Calculator".to_owned(),
        generics: 0,
        supertraits: 0,
        items,
    }
}

fn at_item(item: usize, rule: Rule) -> Violation {
    Violation { place: Place::Item(item), rule }
}

#[test]
fn accepted_method_is_described() {
    let item = TraitItem::Method(method("get_block", vec![bare("u64"), bare("bool")], Some("Block")));
    let api = JsonRpcClientDef::parse_trait_item(0, &item).unwrap();
    assert_eq!(
        api,
        JsonRpcApiDef {
            name: "get_block".to_owned(),
            func: "get_block".to_owned(),
            prefix: "GetBlock".to_owned(),
            inputs: vec!["u64".to_owned(), "bool".to_owned()],
            output: "Block".to_owned(),
        }
    );
}

#[test]
fn method_without_return_type_gives_unit() {
    let item = TraitItem::Method(method("ping", vec![], None));
    let api = JsonRpcClientDef::parse_trait_item(3, &item).unwrap();
    assert_eq!(api.output, "()");
    assert!(api.inputs.is_empty());
    assert_eq!(api.prefix, "Ping");
    assert_eq!(api.func, "ping");
}

#[test]
fn camel_case_method_is_named_by_the_rules() {
    let item = TraitItem::Method(method("getBlock", vec![], Some("Block")));
    let api = JsonRpcClientDef::parse_trait_item(0, &item).unwrap();
    assert_eq!(api.name, "getBlock");
    assert_eq!(api.func, "get_block");
    assert_eq!(api.prefix, "GetBlock");
}

#[test]
fn each_qualifier_is_rejected() {
    let mut m = method("f", vec![], None);
    m.attrs = 2;
    assert_eq!(
        JsonRpcClientDef::parse_trait_item(1, &TraitItem::Method(m)),
        Err(vec![at_item(1, Rule::Attributes)])
    );
    let mut m = method("f", vec![], None);
    m.default = true;
    assert_eq!(
        JsonRpcClientDef::parse_trait_item(1, &TraitItem::Method(m)),
        Err(vec![at_item(1, Rule::DefaultBody)])
    );
    let mut m = method("f", vec![], None);
    m.constness = true;
    assert_eq!(
        JsonRpcClientDef::parse_trait_item(1, &TraitItem::Method(m)),
        Err(vec![at_item(1, Rule::Constness)])
    );
    let mut m = method("f", vec![], None);
    m.unsafety = true;
    assert_eq!(
        JsonRpcClientDef::parse_trait_item(1, &TraitItem::Method(m)),
        Err(vec![at_item(1, Rule::Unsafety)])
    );
    let mut m = method("f", vec![], None);
    m.asyncness = true;
    assert_eq!(
        JsonRpcClientDef::parse_trait_item(1, &TraitItem::Method(m)),
        Err(vec![at_item(1, Rule::Asyncness)])
    );
    let mut m = method("f", vec![], None);
    m.abi = Some("C".to_owned());
    assert_eq!(
        JsonRpcClientDef::parse_trait_item(1, &TraitItem::Method(m)),
        Err(vec![at_item(1, Rule::Abi)])
    );
    let mut m = method("f", vec![], None);
    m.generics = 1;
    assert_eq!(
        JsonRpcClientDef::parse_trait_item(1, &TraitItem::Method(m)),
        Err(vec![at_item(1, Rule::Generics)])
    );
    let mut m = method("f", vec![], None);
    m.variadic = true;
    assert_eq!(
        JsonRpcClientDef::parse_trait_item(1, &TraitItem::Method(m)),
        Err(vec![at_item(1, Rule::Variadic)])
    );
}

#[test]
fn bound_parameters_are_rejected_one_by_one() {
    let m = method(
        "f",
        vec![
            FnArg::Other("&self".to_owned()),
            bare("u8"),
            FnArg::Other("(a, b): (u8, u8)".to_owned()),
        ],
        None,
    );
    assert_eq!(
        JsonRpcClientDef::parse_trait_item(4, &TraitItem::Method(m)),
        Err(vec![
            Violation { place: Place::Input(4, 0), rule: Rule::BareTypes },
            Violation { place: Place::Input(4, 2), rule: Rule::BareTypes },
        ])
    );
}

#[test]
fn item_that_is_no_method_is_rejected() {
    let item = TraitItem::Other("const N: usize;".to_owned());
    assert_eq!(
        JsonRpcClientDef::parse_trait_item(2, &item),
        Err(vec![at_item(2, Rule::OnlyMethods)])
    );
}

#[test]
fn every_violation_is_reported() {
    let mut first = method("f", vec![FnArg::Other("x: u8".to_owned())], None);
    first.asyncness = true;
    first.unsafety = true;
    let second = method("g", vec![bare("u8")], Some("u8"));
    let mut third = method("h", vec![], None);
    third.variadic = true;
    let mut it = definition(vec![
        TraitItem::Method(first),
        TraitItem::Method(second),
        TraitItem::Method(third),
        TraitItem::Other("type T;".to_owned()),
    ]);
    it.unsafety = true;
    it.supertraits = 1;
    assert_eq!(
        JsonRpcClientDef::parse_item_trait(it),
        Err(vec![
            Violation { place: Place::Trait, rule: Rule::TraitUnsafety },
            Violation { place: Place::Trait, rule: Rule::TraitBound },
            at_item(0, Rule::Unsafety),
            at_item(0, Rule::Asyncness),
            Violation { place: Place::Input(0, 0), rule: Rule::BareTypes },
            at_item(2, Rule::Variadic),
            at_item(3, Rule::OnlyMethods),
        ])
    );
}

#[test]
fn trait_rules() {
    let mut it = definition(vec![]);
    it.auto_token = true;
    it.generics = 2;
    assert_eq!(
        JsonRpcClientDef::parse_item_trait(it),
        Err(vec![
            Violation { place: Place::Trait, rule: Rule::TraitAuto },
            Violation { place: Place::Trait, rule: Rule::TraitGenerics },
        ])
    );
}

#[test]
fn accepted_definition_is_described() {
    let it = definition(vec![
        TraitItem::Method(method("ping", vec![], Some("String"))),
        TraitItem::Method(method("add", vec![bare("i64"), bare("i64")], Some("i64"))),
    ]);
    let def = JsonRpcClientDef::parse_item_trait(it).unwrap();
    assert_eq!(def.name, "Calculator");
    assert_eq!(def.vis, "pub");
    assert_eq!(def.apis.len(), 2);
    assert_eq!(def.apis[0].prefix, "Ping");
    assert_eq!(def.apis[1].name, "add");
    assert_eq!(def.apis[1].inputs, vec!["i64".to_owned(), "i64".to_owned()]);
}

#[test]
fn empty_definition_is_accepted() {
    let def = JsonRpcClientDef::parse_item_trait(definition(vec![])).unwrap();
    assert!(def.apis.is_empty());
}

#[test]
fn rule_messages() {
    assert_eq!(Rule::TraitUnsafety.message(), "don't support `unsafe`");
    assert_eq!(Rule::TraitAuto.message(), "don't support `auto`");
    assert_eq!(Rule::TraitGenerics.message(), "don't support generics");
    assert_eq!(Rule::TraitBound.message(), "don't support trait bound");
    assert_eq!(Rule::OnlyMethods.message(), "only support methods");
    assert_eq!(Rule::Attributes.message(), "don't support attributes");
    assert_eq!(Rule::DefaultBody.message(), "don't support default implementation");
    assert_eq!(Rule::Constness.message(), "don't support `const`");
    assert_eq!(Rule::Unsafety.message(), "don't support `unsafe`");
    assert_eq!(Rule::Asyncness.message(), "don't support `async`");
    assert_eq!(Rule::Abi.message(), "don't support  binary interface");
    assert_eq!(Rule::Generics.message(), "don't support generics");
    assert_eq!(Rule::Variadic.message(), "don't support variadic");
    assert_eq!(Rule::BareTypes.message(), "only support types not bound to any pattern");
}
