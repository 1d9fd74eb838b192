//! Interface definitions: the trait that declares the remote methods, the
//! rules an acceptable definition obeys, and the compiled description of each
//! method.

use crate::naming::{pascal_case, pascal_case_of, snake_case, snake_case_of};
use vstd::prelude::*;
use vstd::string::StringExecFns;

verus! {

/// One argument of a method signature.
#[derive(Debug, PartialEq, Eq)]
pub enum FnArg {
    /// A bare type, bound to no pattern: the text of the type.
    Ignored(String),
    /// Anything else (a receiver, a pattern with its type, a pattern alone):
    /// its text.
    Other(String),
}

pub enum FnArgView {
    Ignored(Seq<char>),
    Other(Seq<char>),
}

impl View for FnArg {
    type V = FnArgView;

    open spec fn view(&self) -> FnArgView {
        match self {
            FnArg::Ignored(ty) => FnArgView::Ignored(ty@),
            FnArg::Other(text) => FnArgView::Other(text@),
        }
    }
}

/// A method as the definition declares it.
#[derive(Debug, PartialEq, Eq)]
pub struct TraitItemMethod {
    /// How many attributes the method carries.
    pub attrs: usize,
    /// Whether the method comes with a default body.
    pub default: bool,
    /// Whether the method is declared `const`.
    pub constness: bool,
    /// Whether the method is declared `unsafe`.
    pub unsafety: bool,
    /// Whether the method is declared `async`.
    pub asyncness: bool,
    /// The calling convention the method is bound to, if it names one.
    pub abi: Option<String>,
    /// The name of the method.
    pub ident: String,
    /// How many generic parameters the method declares.
    pub generics: usize,
    /// Whether the argument list ends in `...`.
    pub variadic: bool,
    /// The arguments, in the order of declaration.
    pub inputs: Vec<FnArg>,
    /// The text of the return type, if one is declared.
    pub output: Option<String>,
}

pub struct TraitItemMethodView {
    pub attrs: nat,
    pub default: bool,
    pub constness: bool,
    pub unsafety: bool,
    pub asyncness: bool,
    pub abi: Option<Seq<char>>,
    pub ident: Seq<char>,
    pub generics: nat,
    pub variadic: bool,
    pub inputs: Seq<FnArgView>,
    pub output: Option<Seq<char>>,
}

impl View for TraitItemMethod {
    type V = TraitItemMethodView;

    open spec fn view(&self) -> TraitItemMethodView {
        TraitItemMethodView {
            attrs: self.attrs as nat,
            default: self.default,
            constness: self.constness,
            unsafety: self.unsafety,
            asyncness: self.asyncness,
            abi: match self.abi {
                Some(abi) => Some(abi@),
                None => None,
            },
            ident: self.ident@,
            generics: self.generics as nat,
            variadic: self.variadic,
            inputs: self.inputs@.map_values(|arg: FnArg| arg@),
            output: match self.output {
                Some(ty) => Some(ty@),
                None => None,
            },
        }
    }
}

/// One item of the trait that makes up a definition.
#[derive(Debug, PartialEq, Eq)]
pub enum TraitItem {
    /// A method.
    Method(TraitItemMethod),
    /// Anything that is no method (a constant, an associated type, a macro
    /// call): its text.
    Other(String),
}

pub enum TraitItemView {
    Method(TraitItemMethodView),
    Other(Seq<char>),
}

impl View for TraitItem {
    type V = TraitItemView;

    open spec fn view(&self) -> TraitItemView {
        match self {
            TraitItem::Method(method) => TraitItemView::Method(method@),
            TraitItem::Other(text) => TraitItemView::Other(text@),
        }
    }
}

/// An interface definition: a trait whose methods are the remote methods.
#[derive(Debug, PartialEq, Eq)]
pub struct ItemTrait {
    /// The text of the visibility of the trait (empty when private).
    pub vis: String,
    /// Whether the trait is declared `unsafe`.
    pub unsafety: bool,
    /// Whether the trait is declared `auto`.
    pub auto_token: bool,
    /// The name of the trait.
    pub ident: String,
    /// How many generic parameters the trait declares.
    pub generics: usize,
    /// How many supertraits the trait is bound by.
    pub supertraits: usize,
    /// The items of the trait, in the order of declaration.
    pub items: Vec<TraitItem>,
}

pub struct ItemTraitView {
    pub vis: Seq<char>,
    pub unsafety: bool,
    pub auto_token: bool,
    pub ident: Seq<char>,
    pub generics: nat,
    pub supertraits: nat,
    pub items: Seq<TraitItemView>,
}

impl View for ItemTrait {
    type V = ItemTraitView;

    open spec fn view(&self) -> ItemTraitView {
        ItemTraitView {
            vis: self.vis@,
            unsafety: self.unsafety,
            auto_token: self.auto_token,
            ident: self.ident@,
            generics: self.generics as nat,
            supertraits: self.supertraits as nat,
            items: self.items@.map_values(|item: TraitItem| item@),
        }
    }
}

/// A rule that an acceptable definition obeys.
#[derive(Clone, Copy, Debug, PartialEq, Eq)]
pub enum Rule {
    /// The trait is not `unsafe`.
    TraitUnsafety,
    /// The trait is not `auto`.
    TraitAuto,
    /// The trait declares no generic parameters.
    TraitGenerics,
    /// The trait has no supertraits.
    TraitBound,
    /// Every item of the trait is a method.
    OnlyMethods,
    /// A method carries no attributes.
    Attributes,
    /// A method has no default body.
    DefaultBody,
    /// A method is not `const`.
    Constness,
    /// A method is not `unsafe`.
    Unsafety,
    /// A method is not `async`.
    Asyncness,
    /// A method names no calling convention.
    Abi,
    /// A method declares no generic parameters.
    Generics,
    /// A method is not variadic.
    Variadic,
    /// Every argument of a method is a bare type.
    BareTypes,
}

/// The element of a definition that a violation points at.
#[derive(Clone, Copy, Debug, PartialEq, Eq)]
pub enum Place {
    /// The trait itself.
    Trait,
    /// The item at this position in the trait.
    Item(usize),
    /// The argument at the second position, of the item at the first.
    Input(usize, usize),
}

/// One broken rule, with the element that breaks it.
#[derive(Clone, Copy, Debug, PartialEq, Eq)]
pub struct Violation {
    pub place: Place,
    pub rule: Rule,
}

/// The description of one accepted method.
#[derive(Debug, PartialEq, Eq)]
pub struct JsonRpcApiDef {
    /// The name of the method on the wire.
    pub name: String,
    /// The name of the builder function.
    pub func: String,
    /// The prefix of the names of the request and response types.
    pub prefix: String,
    /// The types of the parameters, in the order of declaration.
    pub inputs: Vec<String>,
    /// The return type.
    pub output: String,
}

pub struct JsonRpcApiDefView {
    pub name: Seq<char>,
    pub func: Seq<char>,
    pub prefix: Seq<char>,
    pub inputs: Seq<Seq<char>>,
    pub output: Seq<char>,
}

impl View for JsonRpcApiDef {
    type V = JsonRpcApiDefView;

    open spec fn view(&self) -> JsonRpcApiDefView {
        JsonRpcApiDefView {
            name: self.name@,
            func: self.func@,
            prefix: self.prefix@,
            inputs: self.inputs@.map_values(|ty: String| ty@),
            output: self.output@,
        }
    }
}

/// The description of an accepted definition.
#[derive(Debug, PartialEq, Eq)]
pub struct JsonRpcClientDef {
    /// The name of the client.
    pub name: String,
    /// The text of the visibility of the client.
    pub vis: String,
    /// The methods, in the order of declaration.
    pub apis: Vec<JsonRpcApiDef>,
}

pub struct JsonRpcClientDefView {
    pub name: Seq<char>,
    pub vis: Seq<char>,
    pub apis: Seq<JsonRpcApiDefView>,
}

impl View for JsonRpcClientDef {
    type V = JsonRpcClientDefView;

    open spec fn view(&self) -> JsonRpcClientDefView {
        JsonRpcClientDefView {
            name: self.name@,
            vis: self.vis@,
            apis: self.apis@.map_values(|api: JsonRpcApiDef| api@),
        }
    }
}

/// The text that tells a reader which rule was broken.
pub open spec fn message_of(rule: Rule) -> Seq<char> {
    match rule {
        Rule::TraitUnsafety => "don't support `unsafe`"@,
        Rule::TraitAuto => "don't support `auto`"@,
        Rule::TraitGenerics => "don't support generics"@,
        Rule::TraitBound => "don't support trait bound"@,
        Rule::OnlyMethods => "only support methods"@,
        Rule::Attributes => "don't support attributes"@,
        Rule::DefaultBody => "don't support default implementation"@,
        Rule::Constness => "don't support `const`"@,
        Rule::Unsafety => "don't support `unsafe`"@,
        Rule::Asyncness => "don't support `async`"@,
        Rule::Abi => "don't support  binary interface"@,
        Rule::Generics => "don't support generics"@,
        Rule::Variadic => "don't support variadic"@,
        Rule::BareTypes => "only support types not bound to any pattern"@,
    }
}

impl Rule {
    /// The text that tells a reader which rule was broken.
    pub fn message(&self) -> (text: &'static str)
        ensures
            text@ == message_of(*self),
    {
        match self {
            Rule::TraitUnsafety => "don't support `unsafe`",
            Rule::TraitAuto => "don't support `auto`",
            Rule::TraitGenerics => "don't support generics",
            Rule::TraitBound => "don't support trait bound",
            Rule::OnlyMethods => "only support methods",
            Rule::Attributes => "don't support attributes",
            Rule::DefaultBody => "don't support default implementation",
            Rule::Constness => "don't support `const`",
            Rule::Unsafety => "don't support `unsafe`",
            Rule::Asyncness => "don't support `async`",
            Rule::Abi => "don't support  binary interface",
            Rule::Generics => "don't support generics",
            Rule::Variadic => "don't support variadic",
            Rule::BareTypes => "only support types not bound to any pattern",
        }
    }
}

/// The violation of `rule` at `place`.
pub open spec fn violation(place: Place, rule: Rule) -> Violation {
    Violation { place, rule }
}

/// The violation of an argument that is no bare type: the argument at `k` of
/// the item at `item`.
pub open spec fn input_violation(item: usize, k: usize) -> Violation {
    Violation { place: Place::Input(item, k), rule: Rule::BareTypes }
}

/// The violation of an item that is no method.
pub open spec fn not_a_method(item: usize) -> Violation {
    Violation { place: Place::Item(item), rule: Rule::OnlyMethods }
}

/// The report of one rule at one place: the violation where the rule is
/// broken, nothing where it is kept.
pub open spec fn flag(broken: bool, place: Place, rule: Rule) -> Seq<Violation> {
    if broken {
        seq![violation(place, rule)]
    } else {
        Seq::empty()
    }
}

/// The violations among the first `n` arguments of the item at `item`: one
/// for each argument that is no bare type, in the order of the arguments.
pub open spec fn input_violations(item: usize, inputs: Seq<FnArgView>, n: nat) -> Seq<Violation>
    decreases n,
{
    if n == 0 {
        Seq::empty()
    } else {
        input_violations(item, inputs, (n - 1) as nat) + flag(
            inputs[n - 1] is Other,
            Place::Input(item, (n - 1) as usize),
            Rule::BareTypes,
        )
    }
}

/// The violations of a method that stands at `item`: first those of its
/// qualifiers, then those of its arguments.
pub open spec fn method_violations(item: usize, method: TraitItemMethodView) -> Seq<Violation> {
    flag(method.attrs > 0, Place::Item(item), Rule::Attributes) + flag(
        method.default,
        Place::Item(item),
        Rule::DefaultBody,
    ) + flag(method.constness, Place::Item(item), Rule::Constness) + flag(
        method.unsafety,
        Place::Item(item),
        Rule::Unsafety,
    ) + flag(method.asyncness, Place::Item(item), Rule::Asyncness) + flag(
        method.abi is Some,
        Place::Item(item),
        Rule::Abi,
    ) + flag(method.generics > 0, Place::Item(item), Rule::Generics) + flag(
        method.variadic,
        Place::Item(item),
        Rule::Variadic,
    ) + input_violations(item, method.inputs, method.inputs.len())
}

/// The violations of the item that stands at `item`.
pub open spec fn item_violations(item: usize, ti: TraitItemView) -> Seq<Violation> {
    match ti {
        TraitItemView::Method(method) => method_violations(item, method),
        TraitItemView::Other(_) => seq![
            not_a_method(item),
        ],
    }
}

/// The violations of the first `n` items, in the order of the items.
pub open spec fn items_violations(items: Seq<TraitItemView>, n: nat) -> Seq<Violation>
    decreases n,
{
    if n == 0 {
        Seq::empty()
    } else {
        items_violations(items, (n - 1) as nat) + item_violations((n - 1) as usize, items[n - 1])
    }
}

/// The violations of the trait itself.
pub open spec fn trait_violations(it: ItemTraitView) -> Seq<Violation> {
    flag(it.unsafety, Place::Trait, Rule::TraitUnsafety) + flag(
        it.auto_token,
        Place::Trait,
        Rule::TraitAuto,
    ) + flag(it.generics > 0, Place::Trait, Rule::TraitGenerics) + flag(
        it.supertraits > 0,
        Place::Trait,
        Rule::TraitBound,
    )
}

/// Every violation of a definition: those of the trait, then those of its
/// items in the order of declaration.
pub open spec fn violations_of(it: ItemTraitView) -> Seq<Violation> {
    trait_violations(it) + items_violations(it.items, it.items.len())
}

/// The text of the type of an argument.
pub open spec fn arg_type(arg: FnArgView) -> Seq<char> {
    match arg {
        FnArgView::Ignored(ty) => ty,
        FnArgView::Other(text) => text,
    }
}

/// The description of an accepted method.
pub open spec fn api_of(method: TraitItemMethodView) -> JsonRpcApiDefView {
    JsonRpcApiDefView {
        name: method.ident,
        func: snake_case_of(method.ident),
        prefix: pascal_case_of(method.ident),
        inputs: method.inputs.map_values(|arg: FnArgView| arg_type(arg)),
        output: match method.output {
            Some(ty) => ty,
            None => "()"@,
        },
    }
}

/// The description of the item `ti`, which is an accepted method.
pub open spec fn api_of_item(ti: TraitItemView) -> JsonRpcApiDefView {
    api_of(ti->Method_0)
}

/// The description of an accepted definition.
pub open spec fn client_of(it: ItemTraitView) -> JsonRpcClientDefView {
    JsonRpcClientDefView {
        name: it.ident,
        vis: it.vis,
        apis: it.items.map_values(|ti: TraitItemView| api_of_item(ti)),
    }
}

/// Whether a method obeys every rule.
pub open spec fn method_accepted(method: TraitItemMethodView) -> bool {
    &&& method.attrs == 0
    &&& !method.default
    &&& !method.constness
    &&& !method.unsafety
    &&& !method.asyncness
    &&& method.abi is None
    &&& method.generics == 0
    &&& !method.variadic
    &&& forall|k: int| 0 <= k < method.inputs.len() ==> #[trigger] method.inputs[k] is Ignored
}

/// Whether a definition obeys every rule.
pub open spec fn accepted(it: ItemTraitView) -> bool {
    &&& !it.unsafety
    &&& !it.auto_token
    &&& it.generics == 0
    &&& it.supertraits == 0
    &&& forall|i: int|
        0 <= i < it.items.len() ==> (#[trigger] it.items[i] matches TraitItemView::Method(method)
            && method_accepted(method))
}

/// Whether the definition breaks the rule of `v` at the place of `v`.
pub open spec fn breaks(it: ItemTraitView, v: Violation) -> bool {
    match v.place {
        Place::Trait => match v.rule {
            Rule::TraitUnsafety => it.unsafety,
            Rule::TraitAuto => it.auto_token,
            Rule::TraitGenerics => it.generics > 0,
            Rule::TraitBound => it.supertraits > 0,
            _ => false,
        },
        Place::Item(i) => i < it.items.len() && item_breaks(it.items[i as int], v.rule),
        Place::Input(i, k) => {
            &&& i < it.items.len()
            &&& it.items[i as int] matches TraitItemView::Method(method)
            &&& k < method.inputs.len()
            &&& method.inputs[k as int] is Other
            &&& v.rule == Rule::BareTypes
        },
    }
}

/// Whether the item as a whole breaks `rule`.
pub open spec fn item_breaks(ti: TraitItemView, rule: Rule) -> bool {
    match ti {
        TraitItemView::Other(_) => rule == Rule::OnlyMethods,
        TraitItemView::Method(method) => match rule {
            Rule::Attributes => method.attrs > 0,
            Rule::DefaultBody => method.default,
            Rule::Constness => method.constness,
            Rule::Unsafety => method.unsafety,
            Rule::Asyncness => method.asyncness,
            Rule::Abi => method.abi is Some,
            Rule::Generics => method.generics > 0,
            Rule::Variadic => method.variadic,
            _ => false,
        },
    }
}

/// Whether `v` reports one of the first `n` arguments of the item at `item`.
spec fn reports_input(item: usize, inputs: Seq<FnArgView>, n: nat, v: Violation) -> bool {
    exists|k: usize|
        k < n && inputs[k as int] is Other && v == #[trigger] input_violation(item, k)
}

/// Whether `v` reports one of the first `n` items or one of their arguments.
spec fn reports_item(items: Seq<TraitItemView>, n: nat, v: Violation) -> bool {
    exists|i: usize| i < n && #[trigger] item_violations(i, items[i as int]).contains(v)
}

proof fn lemma_contains_concat(a: Seq<Violation>, b: Seq<Violation>, v: Violation)
    ensures
        (a + b).contains(v) <==> a.contains(v) || b.contains(v),
{
    if a.contains(v) {
        let i = choose|i: int| 0 <= i < a.len() && a[i] == v;
        assert((a + b)[i] == v);
    }
    if b.contains(v) {
        let i = choose|i: int| 0 <= i < b.len() && b[i] == v;
        assert((a + b)[a.len() + i] == v);
    }
    if (a + b).contains(v) {
        let i = choose|i: int| 0 <= i < (a + b).len() && (a + b)[i] == v;
        assert(i < a.len() ==> a[i] == v);
        assert(i >= a.len() ==> b[i - a.len()] == v);
    }
}

proof fn lemma_flag(broken: bool, place: Place, rule: Rule, v: Violation)
    ensures
        flag(broken, place, rule).contains(v) <==> broken && v == violation(place, rule),
{
    if broken {
        assert(flag(broken, place, rule)[0] == violation(place, rule));
    }
}

proof fn lemma_input_violations_empty(item: usize, inputs: Seq<FnArgView>, n: nat)
    requires
        n <= inputs.len(),
    ensures
        input_violations(item, inputs, n).len() == 0 <==> (forall|k: int|
            0 <= k < n ==> #[trigger] inputs[k] is Ignored),
    decreases n,
{
    if n > 0 {
        lemma_input_violations_empty(item, inputs, (n - 1) as nat);
    }
}

proof fn lemma_input_violations(item: usize, inputs: Seq<FnArgView>, n: nat, v: Violation)
    requires
        n <= inputs.len() <= usize::MAX,
    ensures
        input_violations(item, inputs, n).contains(v) <==> reports_input(item, inputs, n, v),
    decreases n,
{
    if n > 0 {
        let k0 = (n - 1) as usize;
        let head = input_violations(item, inputs, (n - 1) as nat);
        let tail = flag(inputs[n - 1] is Other, Place::Input(item, k0), Rule::BareTypes);
        lemma_input_violations(item, inputs, (n - 1) as nat, v);
        lemma_contains_concat(head, tail, v);
        lemma_flag(inputs[n - 1] is Other, Place::Input(item, k0), Rule::BareTypes, v);
        if head.contains(v) {
            let k = choose|k: usize|
                k < n - 1 && inputs[k as int] is Other && v == #[trigger] input_violation(item, k);
            assert(k < n);
        }
        if tail.contains(v) {
            assert(k0 < n && inputs[k0 as int] is Other && v == input_violation(item, k0));
        }
        if reports_input(item, inputs, n, v) {
            let k = choose|k: usize|
                k < n && inputs[k as int] is Other && v == #[trigger] input_violation(item, k);
            assert(k == k0 || k < n - 1);
        }
    }
}

proof fn lemma_method_violations_empty(item: usize, m: TraitItemMethodView)
    ensures
        method_violations(item, m).len() == 0 <==> method_accepted(m),
{
    let place = Place::Item(item);
    let f1 = flag(m.attrs > 0, place, Rule::Attributes);
    let f2 = flag(m.default, place, Rule::DefaultBody);
    let f3 = flag(m.constness, place, Rule::Constness);
    let f4 = flag(m.unsafety, place, Rule::Unsafety);
    let f5 = flag(m.asyncness, place, Rule::Asyncness);
    let f6 = flag(m.abi is Some, place, Rule::Abi);
    let f7 = flag(m.generics > 0, place, Rule::Generics);
    let f8 = flag(m.variadic, place, Rule::Variadic);
    let ins = input_violations(item, m.inputs, m.inputs.len());
    lemma_input_violations_empty(item, m.inputs, m.inputs.len());
    let flags = f1 + f2 + f3 + f4 + f5 + f6 + f7 + f8;
    assert(flags.len() == f1.len() + f2.len() + f3.len() + f4.len() + f5.len() + f6.len()
        + f7.len() + f8.len());
    assert(method_violations(item, m).len() == flags.len() + ins.len());
}

proof fn lemma_method_violations(item: usize, m: TraitItemMethodView, v: Violation)
    requires
        m.inputs.len() <= usize::MAX,
    ensures
        method_violations(item, m).contains(v) <==> (v.place == Place::Item(item) && item_breaks(
            TraitItemView::Method(m),
            v.rule,
        )) || reports_input(item, m.inputs, m.inputs.len(), v),
{
    let place = Place::Item(item);
    let f1 = flag(m.attrs > 0, place, Rule::Attributes);
    let f2 = flag(m.default, place, Rule::DefaultBody);
    let f3 = flag(m.constness, place, Rule::Constness);
    let f4 = flag(m.unsafety, place, Rule::Unsafety);
    let f5 = flag(m.asyncness, place, Rule::Asyncness);
    let f6 = flag(m.abi is Some, place, Rule::Abi);
    let f7 = flag(m.generics > 0, place, Rule::Generics);
    let f8 = flag(m.variadic, place, Rule::Variadic);
    let ins = input_violations(item, m.inputs, m.inputs.len());
    lemma_flag(m.attrs > 0, place, Rule::Attributes, v);
    lemma_flag(m.default, place, Rule::DefaultBody, v);
    lemma_flag(m.constness, place, Rule::Constness, v);
    lemma_flag(m.unsafety, place, Rule::Unsafety, v);
    lemma_flag(m.asyncness, place, Rule::Asyncness, v);
    lemma_flag(m.abi is Some, place, Rule::Abi, v);
    lemma_flag(m.generics > 0, place, Rule::Generics, v);
    lemma_flag(m.variadic, place, Rule::Variadic, v);
    lemma_input_violations(item, m.inputs, m.inputs.len(), v);
    lemma_contains_concat(f1, f2, v);
    lemma_contains_concat(f1 + f2, f3, v);
    lemma_contains_concat(f1 + f2 + f3, f4, v);
    lemma_contains_concat(f1 + f2 + f3 + f4, f5, v);
    lemma_contains_concat(f1 + f2 + f3 + f4 + f5, f6, v);
    lemma_contains_concat(f1 + f2 + f3 + f4 + f5 + f6, f7, v);
    lemma_contains_concat(f1 + f2 + f3 + f4 + f5 + f6 + f7, f8, v);
    lemma_contains_concat(f1 + f2 + f3 + f4 + f5 + f6 + f7 + f8, ins, v);
    if reports_input(item, m.inputs, m.inputs.len(), v) {
        let k = choose|k: usize|
            k < m.inputs.len() && m.inputs[k as int] is Other && v == #[trigger] input_violation(
                item,
                k,
            );
        assert(v.place != place);
    }
}

proof fn lemma_item_violations_empty(item: usize, ti: TraitItemView)
    ensures
        item_violations(item, ti).len() == 0 <==> (ti matches TraitItemView::Method(method)
            && method_accepted(method)),
{
    match ti {
        TraitItemView::Other(_) => {},
        TraitItemView::Method(m) => {
            lemma_method_violations_empty(item, m);
        },
    }
}

proof fn lemma_item_violations(item: usize, ti: TraitItemView, v: Violation)
    requires
        ti matches TraitItemView::Method(method) ==> method.inputs.len() <= usize::MAX,
    ensures
        item_violations(item, ti).contains(v) <==> (v.place == Place::Item(item) && item_breaks(
            ti,
            v.rule,
        )) || (ti matches TraitItemView::Method(method) && reports_input(
            item,
            method.inputs,
            method.inputs.len(),
            v,
        )),
{
    match ti {
        TraitItemView::Other(_) => {
            assert(item_violations(item, ti)[0] == not_a_method(item));
        },
        TraitItemView::Method(m) => {
            lemma_method_violations(item, m, v);
        },
    }
}

proof fn lemma_items_violations_empty(items: Seq<TraitItemView>, n: nat)
    requires
        n <= items.len(),
    ensures
        items_violations(items, n).len() == 0 <==> (forall|i: int|
            0 <= i < n ==> (#[trigger] items[i] matches TraitItemView::Method(method)
                && method_accepted(method))),
    decreases n,
{
    if n > 0 {
        lemma_items_violations_empty(items, (n - 1) as nat);
        lemma_item_violations_empty((n - 1) as usize, items[n - 1]);
    }
}

proof fn lemma_items_violations(items: Seq<TraitItemView>, n: nat, v: Violation)
    requires
        n <= items.len() <= usize::MAX,
    ensures
        items_violations(items, n).contains(v) <==> reports_item(items, n, v),
    decreases n,
{
    if n > 0 {
        let i0 = (n - 1) as usize;
        let head = items_violations(items, (n - 1) as nat);
        let tail = item_violations(i0, items[n - 1]);
        lemma_items_violations(items, (n - 1) as nat, v);
        lemma_contains_concat(head, tail, v);
        if head.contains(v) {
            let i = choose|i: usize|
                i < n - 1 && #[trigger] item_violations(i, items[i as int]).contains(v);
            assert(i < n);
        }
        if tail.contains(v) {
            assert(i0 < n && item_violations(i0, items[i0 as int]).contains(v));
        }
        if reports_item(items, n, v) {
            let i = choose|i: usize|
                i < n && #[trigger] item_violations(i, items[i as int]).contains(v);
            assert(i == i0 || i < n - 1);
        }
    }
}

/// A definition is accepted exactly when it has no violation.
pub proof fn lemma_accepted_means_no_violation(it: ItemTraitView)
    ensures
        violations_of(it).len() == 0 <==> accepted(it),
{
    lemma_items_violations_empty(it.items, it.items.len());
}

/// Every violation is reported, and nothing else: a violation is listed
/// exactly when the definition breaks its rule at its place.
pub proof fn lemma_violations_are_the_broken_rules(it: ItemTraitView, v: Violation)
    requires
        it.items.len() <= usize::MAX,
        forall|i: int|
            0 <= i < it.items.len() ==> (#[trigger] it.items[i] matches TraitItemView::Method(
                method,
            ) ==> method.inputs.len() <= usize::MAX),
    ensures
        violations_of(it).contains(v) <==> breaks(it, v),
{
    let t1 = flag(it.unsafety, Place::Trait, Rule::TraitUnsafety);
    let t2 = flag(it.auto_token, Place::Trait, Rule::TraitAuto);
    let t3 = flag(it.generics > 0, Place::Trait, Rule::TraitGenerics);
    let t4 = flag(it.supertraits > 0, Place::Trait, Rule::TraitBound);
    let rest = items_violations(it.items, it.items.len());
    lemma_flag(it.unsafety, Place::Trait, Rule::TraitUnsafety, v);
    lemma_flag(it.auto_token, Place::Trait, Rule::TraitAuto, v);
    lemma_flag(it.generics > 0, Place::Trait, Rule::TraitGenerics, v);
    lemma_flag(it.supertraits > 0, Place::Trait, Rule::TraitBound, v);
    lemma_contains_concat(t1, t2, v);
    lemma_contains_concat(t1 + t2, t3, v);
    lemma_contains_concat(t1 + t2 + t3, t4, v);
    lemma_contains_concat(t1 + t2 + t3 + t4, rest, v);
    lemma_items_violations(it.items, it.items.len(), v);
    if rest.contains(v) {
        let i = choose|i: usize|
            i < it.items.len() && #[trigger] item_violations(i, it.items[i as int]).contains(v);
        lemma_item_violations(i, it.items[i as int], v);
        if it.items[i as int] matches TraitItemView::Method(m) && reports_input(
            i,
            m.inputs,
            m.inputs.len(),
            v,
        ) {
            let m = it.items[i as int]->Method_0;
            let k = choose|k: usize|
                k < m.inputs.len() && m.inputs[k as int] is Other && v == #[trigger] input_violation(
                    i,
                    k,
                );
            assert(breaks(it, v));
        }
    }
    if breaks(it, v) {
        match v.place {
            Place::Trait => {},
            Place::Item(i) => {
                lemma_item_violations(i, it.items[i as int], v);
            },
            Place::Input(i, k) => {
                let m = it.items[i as int]->Method_0;
                assert(k < m.inputs.len() && m.inputs[k as int] is Other && v == input_violation(
                    i,
                    k,
                ));
                lemma_item_violations(i, it.items[i as int], v);
            },
        }
    }
}

fn report(found: &mut Vec<Violation>, broken: bool, place: Place, rule: Rule)
    ensures
        final(found)@ == old(found)@ + flag(broken, place, rule),
{
    if broken {
        found.push(Violation { place, rule });
    }
}

impl JsonRpcClientDef {
    /// Checks the item that stands at `index` in its trait and describes it.
    /// An item that breaks no rule is a method and gives its description; any
    /// other gives all the rules it breaks.
    pub fn parse_trait_item(index: usize, ti: &TraitItem) -> (r: Result<
        JsonRpcApiDef,
        Vec<Violation>,
    >)
        ensures
            r is Ok <==> (ti@ matches TraitItemView::Method(method) && method_accepted(method)),
            r is Ok <==> item_violations(index, ti@).len() == 0,
            r matches Ok(api) ==> ti is Method && api@ == api_of_item(ti@),
            r matches Err(found) ==> found@ == item_violations(index, ti@),
    {
        let mut found: Vec<Violation> = Vec::new();
        proof {
            lemma_item_violations_empty(index, ti@);
        }
        match ti {
            TraitItem::Other(_) => {
                found.push(Violation { place: Place::Item(index), rule: Rule::OnlyMethods });
                Err(found)
            },
            TraitItem::Method(tim) => {
                let place = Place::Item(index);
                report(&mut found, tim.attrs > 0, place, Rule::Attributes);
                report(&mut found, tim.default, place, Rule::DefaultBody);
                report(&mut found, tim.constness, place, Rule::Constness);
                report(&mut found, tim.unsafety, place, Rule::Unsafety);
                report(&mut found, tim.asyncness, place, Rule::Asyncness);
                report(&mut found, tim.abi.is_some(), place, Rule::Abi);
                report(&mut found, tim.generics > 0, place, Rule::Generics);
                report(&mut found, tim.variadic, place, Rule::Variadic);
                let ghost qualifiers = found@;
                let mut inputs: Vec<String> = Vec::new();
                let n = tim.inputs.len();
                let mut k: usize = 0;
                while k < n
                    invariant
                        n == tim.inputs.len(),
                        k <= n,
                        found@ == qualifiers + input_violations(index, tim@.inputs, k as nat),
                        found@.len() == 0 ==> inputs@.len() == k,
                        found@.len() == 0 ==> forall|j: int|
                            0 <= j < k ==> #[trigger] inputs@[j]@ == arg_type(tim@.inputs[j]),
                    decreases n - k,
                {
                    match &tim.inputs[k] {
                        FnArg::Ignored(ty) => {
                            report(&mut found, false, Place::Input(index, k), Rule::BareTypes);
                            inputs.push(ty.clone());
                        },
                        FnArg::Other(_) => {
                            report(&mut found, true, Place::Input(index, k), Rule::BareTypes);
                        },
                    }
                    assert(found@ =~= qualifiers + input_violations(
                        index,
                        tim@.inputs,
                        (k + 1) as nat,
                    ));
                    k += 1;
                }
                if found.len() > 0 {
                    Err(found)
                } else {
                    let output = match &tim.output {
                        Some(ty) => ty.clone(),
                        None => String::from_str("()"),
                    };
                    let api = JsonRpcApiDef {
                        name: tim.ident.clone(),
                        func: snake_case(tim.ident.as_str()),
                        prefix: pascal_case(tim.ident.as_str()),
                        inputs,
                        output,
                    };
                    assert(api@.inputs =~= api_of(tim@).inputs);
                    Ok(api)
                }
            },
        }
    }

    /// Checks a definition and describes it. A definition that breaks no
    /// rule gives the description of the client and of each method; any other
    /// gives every rule it breaks, each with the element that breaks it.
    pub fn parse_item_trait(it: ItemTrait) -> (r: Result<JsonRpcClientDef, Vec<Violation>>)
        ensures
            r is Ok <==> accepted(it@),
            r is Ok <==> violations_of(it@).len() == 0,
            r matches Ok(def) ==> def@ == client_of(it@),
            r matches Err(found) ==> found@ == violations_of(it@),
    {
        let mut found: Vec<Violation> = Vec::new();
        proof {
            lemma_accepted_means_no_violation(it@);
        }
        report(&mut found, it.unsafety, Place::Trait, Rule::TraitUnsafety);
        report(&mut found, it.auto_token, Place::Trait, Rule::TraitAuto);
        report(&mut found, it.generics > 0, Place::Trait, Rule::TraitGenerics);
        report(&mut found, it.supertraits > 0, Place::Trait, Rule::TraitBound);
        let mut apis: Vec<JsonRpcApiDef> = Vec::new();
        let n = it.items.len();
        let mut i: usize = 0;
        while i < n
            invariant
                n == it.items.len(),
                i <= n,
                found@ == trait_violations(it@) + items_violations(it@.items, i as nat),
                found@.len() == 0 ==> apis@.len() == i,
                found@.len() == 0 ==> forall|j: int|
                    0 <= j < i ==> #[trigger] apis@[j]@ == api_of_item(it@.items[j]),
            decreases n - i,
        {
            match Self::parse_trait_item(i, &it.items[i]) {
                Ok(api) => {
                    apis.push(api);
                },
                Err(mut more) => {
                    found.append(&mut more);
                },
            }
            i += 1;
        }
        if found.len() > 0 {
            Err(found)
        } else {
            let def = JsonRpcClientDef { name: it.ident, vis: it.vis, apis };
            assert(def@.apis =~= client_of(it@).apis);
            Ok(def)
        }
    }
}

} // verus!
