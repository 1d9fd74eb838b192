//! The naming rules of the interface compiler: how a method's identifier
//! becomes the names of its request type, its response type and its builder
//! function.

use vstd::prelude::*;
use vstd::string::StringExecFns;

verus! {

/// Whether `c` is one of the letters `A` to `Z`.
pub open spec fn is_ascii_upper(c: char) -> bool {
    'A' <= c <= 'Z'
}

/// Whether `c` is one of the letters `a` to `z`.
pub open spec fn is_ascii_lower(c: char) -> bool {
    'a' <= c <= 'z'
}

/// Whether `c` is one of the digits `0` to `9`.
pub open spec fn is_ascii_digit(c: char) -> bool {
    '0' <= c <= '9'
}

/// `c` with the letters `a` to `z` mapped to `A` to `Z`; any other character
/// is unchanged.
pub open spec fn ascii_upper(c: char) -> char {
    if is_ascii_lower(c) {
        ((c as u32) - 32) as char
    } else {
        c
    }
}

/// `c` with the letters `A` to `Z` mapped to `a` to `z`; any other character
/// is unchanged.
pub open spec fn ascii_lower(c: char) -> char {
    if is_ascii_upper(c) {
        ((c as u32) + 32) as char
    } else {
        c
    }
}

/// What `char::is_uppercase` answers for `c`: whether Unicode gives the
/// character the `Uppercase` property.
pub uninterp spec fn unicode_uppercase(c: char) -> bool;

/// Whether `c` is an uppercase letter: within ASCII the letters `A` to `Z`,
/// beyond ASCII whatever Unicode calls uppercase.
pub open spec fn is_uppercase(c: char) -> bool {
    if c <= '\x7f' {
        is_ascii_upper(c)
    } else {
        unicode_uppercase(c)
    }
}

/// `char::to_ascii_uppercase` maps the ASCII letters `a` to `z` to `A` to `Z`
/// and returns every other character unchanged.
pub assume_specification[ char::to_ascii_uppercase ](c: &char) -> (r: char)
    ensures
        r == ascii_upper(*c),
;

/// `char::to_ascii_lowercase` maps the ASCII letters `A` to `Z` to `a` to `z`
/// and returns every other character unchanged.
pub assume_specification[ char::to_ascii_lowercase ](c: &char) -> (r: char)
    ensures
        r == ascii_lower(*c),
;

/// `char::is_uppercase` tells whether the character has Unicode's `Uppercase`
/// property. The answer depends on the character alone.
pub assume_specification[ char::is_uppercase ](c: char) -> (r: bool)
    ensures
        r == unicode_uppercase(c),
;

/// The Pascal-case form of `s`: the underscores are dropped, and a character
/// is capitalised exactly when it is the first of `s` or follows an
/// underscore.
pub open spec fn pascal_case_of(s: Seq<char>) -> Seq<char>
    decreases s.len(),
{
    if s.len() == 0 {
        s
    } else {
        let before = pascal_case_of(s.drop_last());
        let c = s.last();
        if c == '_' {
            before
        } else if s.len() == 1 || s[s.len() - 2] == '_' {
            before.push(ascii_upper(c))
        } else {
            before.push(c)
        }
    }
}

/// The snake-case form of `s`: every character is lowered, and an underscore
/// stands before each one that was an uppercase letter, unless it is the
/// first of `s`.
pub open spec fn snake_case_of(s: Seq<char>) -> Seq<char>
    decreases s.len(),
{
    if s.len() == 0 {
        s
    } else {
        let before = snake_case_of(s.drop_last());
        let c = s.last();
        if s.len() > 1 && is_uppercase(c) {
            before.push('_').push(ascii_lower(c))
        } else {
            before.push(ascii_lower(c))
        }
    }
}

/// The name of the request type of a method whose Pascal-case name is `prefix`.
pub open spec fn request_name_of(prefix: Seq<char>) -> Seq<char> {
    prefix + "JsonRpcRequest"@
}

/// The name of the response type of a method whose Pascal-case name is `prefix`.
pub open spec fn response_name_of(prefix: Seq<char>) -> Seq<char> {
    prefix + "JsonRpcResponse"@
}

/// Whether `s` is an identifier written with ASCII letters, digits and
/// underscores that does not start with a digit.
pub open spec fn is_identifier(s: Seq<char>) -> bool {
    &&& s.len() > 0
    &&& !is_ascii_digit(s[0])
    &&& forall|i: int|
        0 <= i < s.len() ==> is_ascii_lower(#[trigger] s[i]) || is_ascii_upper(s[i])
            || is_ascii_digit(s[i]) || s[i] == '_'
}

/// Whether `s` is an identifier in snake case: lower-case letters, digits and
/// underscores, starting with a letter, each underscore followed by a letter.
pub open spec fn is_snake_identifier(s: Seq<char>) -> bool {
    &&& s.len() > 0
    &&& is_ascii_lower(s[0])
    &&& forall|i: int|
        0 <= i < s.len() ==> is_ascii_lower(#[trigger] s[i]) || is_ascii_digit(s[i]) || s[i]
            == '_'
    &&& forall|i: int|
        0 <= i < s.len() && #[trigger] s[i] == '_' ==> i + 1 < s.len() && is_ascii_lower(
            s[i + 1],
        )
}

/// The round trip on the first `n` characters of a snake-case identifier
/// gives them back, but for an underscore at their end, which comes back
/// with the letter after it.
proof fn lemma_snake_of_pascal_prefix(x: Seq<char>, n: int)
    requires
        is_snake_identifier(x),
        0 <= n <= x.len(),
    ensures
        n > 0 ==> pascal_case_of(x.take(n)).len() > 0,
        snake_case_of(pascal_case_of(x.take(n))) == if n > 0 && x[n - 1] == '_' {
            x.take(n - 1)
        } else {
            x.take(n)
        },
    decreases n,
{
    if n > 0 {
        lemma_snake_of_pascal_prefix(x, n - 1);
        assert(x.take(n).drop_last() =~= x.take(n - 1));
        if x[n - 1] != '_' {
            assert(pascal_case_of(x.take(n)).drop_last() =~= pascal_case_of(x.take(n - 1)));
        }
    }
}

/// Naming a method in Pascal case and then in snake case gives back the
/// identifier, when the identifier is in snake case.
pub proof fn lemma_snake_case_inverts_pascal_case(x: Seq<char>)
    requires
        is_snake_identifier(x),
    ensures
        is_identifier(x),
        snake_case_of(pascal_case_of(x)) == x,
{
    lemma_snake_of_pascal_prefix(x, x.len() as int);
    assert(x.take(x.len() as int) =~= x);
}

proof fn lemma_snake_case_has_no_capitals(y: Seq<char>, i: int)
    requires
        0 <= i < snake_case_of(y).len(),
    ensures
        !is_ascii_upper(snake_case_of(y)[i]),
    decreases y.len(),
{
    if y.len() > 0 && i < snake_case_of(y.drop_last()).len() {
        lemma_snake_case_has_no_capitals(y.drop_last(), i);
    }
}

/// Whether an underscore among the first `n - 1` characters of `x` is lost
/// or misplaced on the way through Pascal case and back: it stands first, or
/// what follows it is no lower-case letter.
spec fn has_stray_underscore(x: Seq<char>, n: int) -> bool {
    exists|i: int|
        0 <= i < n - 1 && #[trigger] x[i] == '_' && (i == 0 || !is_ascii_lower(x[i + 1]))
}

/// The round trip on the first `n` characters gives back fewer characters
/// than `n` where an underscore ends them, and where one of them is a stray
/// underscore.
proof fn lemma_snake_of_pascal_length(x: Seq<char>, n: int)
    requires
        0 <= n <= x.len(),
        forall|i: int|
            0 <= i < x.len() ==> is_ascii_lower(#[trigger] x[i]) || is_ascii_digit(x[i]) || x[i]
                == '_',
    ensures
        snake_case_of(pascal_case_of(x.take(n))).len() + (if n > 0 && x[n - 1] == '_' {
            1int
        } else {
            0int
        }) + (if has_stray_underscore(x, n) {
            1int
        } else {
            0int
        }) <= n,
    decreases n,
{
    if n > 0 {
        lemma_snake_of_pascal_length(x, n - 1);
        assert(x.take(n).drop_last() =~= x.take(n - 1));
        if x[n - 1] != '_' {
            assert(pascal_case_of(x.take(n)).drop_last() =~= pascal_case_of(x.take(n - 1)));
        }
        if has_stray_underscore(x, n) && !has_stray_underscore(x, n - 1) {
            let i = choose|i: int|
                0 <= i < n - 1 && #[trigger] x[i] == '_' && (i == 0 || !is_ascii_lower(x[i + 1]));
            assert(i == n - 2);
        }
    }
}

/// Among the identifiers, the snake-case ones are the only ones that naming
/// in Pascal case and then in snake case gives back.
pub proof fn lemma_only_snake_case_survives_pascal_case(x: Seq<char>)
    requires
        is_identifier(x),
        snake_case_of(pascal_case_of(x)) == x,
    ensures
        is_snake_identifier(x),
{
    assert forall|i: int| 0 <= i < x.len() implies !is_ascii_upper(#[trigger] x[i]) by {
        lemma_snake_case_has_no_capitals(pascal_case_of(x), i);
    }
    lemma_snake_of_pascal_length(x, x.len() as int);
    assert(x.take(x.len() as int) =~= x);
}

fn is_upper(c: char) -> (r: bool)
    ensures
        r == is_uppercase(c),
{
    if c <= '\x7f' {
        'A' <= c && c <= 'Z'
    } else {
        c.is_uppercase()
    }
}

/// Turns an identifier into the name of its builder function.
pub fn snake_case(ident: &str) -> (snake: String)
    ensures
        snake@ == snake_case_of(ident@),
{
    let mut snake = String::new();
    let mut first = true;
    for ch in it: ident.chars()
        invariant
            it.seq() == ident@,
            first == (it.index() == 0),
            snake@ == snake_case_of(it.seq().take(it.index() as int)),
    {
        proof {
            let n = it.index() as int;
            assert(it.seq().take(n + 1).drop_last() =~= it.seq().take(n));
        }
        if !first && is_upper(ch) {
            snake.push('_');
        }
        snake.push(ch.to_ascii_lowercase());
        first = false;
    }
    proof {
        assert(ident@.take(ident@.len() as int) =~= ident@);
    }
    snake
}

/// Turns an identifier into the prefix of the names of its request and
/// response types.
pub fn pascal_case(ident: &str) -> (pascal: String)
    ensures
        pascal@ == pascal_case_of(ident@),
{
    let mut pascal = String::new();
    let mut capitalize = true;
    for ch in it: ident.chars()
        invariant
            it.seq() == ident@,
            capitalize == (it.index() == 0 || it.seq()[it.index() - 1] == '_'),
            pascal@ == pascal_case_of(it.seq().take(it.index() as int)),
    {
        proof {
            let n = it.index() as int;
            assert(it.seq().take(n + 1).drop_last() =~= it.seq().take(n));
        }
        if ch == '_' {
            capitalize = true;
        } else if capitalize {
            pascal.push(ch.to_ascii_uppercase());
            capitalize = false;
        } else {
            pascal.push(ch);
        }
    }
    proof {
        assert(ident@.take(ident@.len() as int) =~= ident@);
    }
    pascal
}

/// The names of the request type and of the response type that belong to a
/// Pascal-case prefix.
pub fn construct_idents(prefix: &str) -> (names: (String, String))
    ensures
        names.0@ == request_name_of(prefix@),
        names.1@ == response_name_of(prefix@),
{
    let request = String::from_str(prefix).concat("JsonRpcRequest");
    let response = String::from_str(prefix).concat("JsonRpcResponse");
    (request, response)
}

} // verus!
