//! Placeholders in template text and their expansion.
//!
//! A placeholder is written `<name:Kind>`: an identifier, a colon and one of
//! the kinds `SeqNum` and `UUID`, in angle brackets. A `SeqNum` placeholder
//! stands for a number that grows linearly with the request's index.

use vstd::prelude::*;
use crate::text::{decimal, push_decimal, string_of, chars_of};

verus! {

/// What a placeholder asks for.
#[derive(Clone, Copy, Debug, PartialEq, Eq, Structural)]
pub enum Kind {
    /// A number derived from the request's index.
    SeqNum,
    /// A unique identifier. Part of the grammar, but expanded to nothing else
    /// than itself: the placeholder stays in the text as it is written.
    Uuid,
}

/// How the numbers of one named placeholder run.
#[derive(Clone, Debug, PartialEq, Eq)]
pub struct Param {
    /// The placeholder's name.
    pub name: String,
    /// The number at index 0; where absent, the job's own start is used.
    pub init_seq_num: Option<u64>,
    /// The distance between the numbers of two neighbouring indices; 1 where absent.
    pub step: Option<u64>,
}

/// The mathematical content of a `Param`.
pub ghost struct ParamSpec {
    pub name: Seq<char>,
    pub init_seq_num: Option<u64>,
    pub step: Option<u64>,
}

impl View for Param {
    type V = ParamSpec;

    open spec fn view(&self) -> ParamSpec {
        ParamSpec { name: self.name@, init_seq_num: self.init_seq_num, step: self.step }
    }
}

/// The contents of a parameter table.
pub open spec fn param_views(params: Seq<Param>) -> Seq<ParamSpec> {
    params.map_values(|p: Param| p@)
}

/// A placeholder found in a text.
pub ghost struct TokenSpec {
    pub name: Seq<char>,
    pub kind: Kind,
}

/// A placeholder found in a text.
#[derive(Debug, PartialEq, Eq)]
pub struct Token {
    /// The identifier before the colon.
    pub name: String,
    /// The kind after the colon.
    pub kind: Kind,
    /// The number of characters from `<` to `>`, both counted.
    pub len: usize,
}

impl View for Token {
    type V = TokenSpec;

    open spec fn view(&self) -> TokenSpec {
        TokenSpec { name: self.name@, kind: self.kind }
    }
}

/// A letter of the ASCII alphabet or an underscore.
pub open spec fn is_ident_start(c: char) -> bool {
    ('a' <= c && c <= 'z') || ('A' <= c && c <= 'Z') || c == '_'
}

/// A character that may stand inside an identifier.
pub open spec fn is_ident_char(c: char) -> bool {
    is_ident_start(c) || ('0' <= c && c <= '9')
}

/// The number of identifier characters that follow each other in `s` from position `i` on.
pub open spec fn ident_run(s: Seq<char>, i: int) -> nat
    decreases s.len() - i,
{
    if 0 <= i < s.len() && is_ident_char(s[i]) {
        1 + ident_run(s, i + 1)
    } else {
        0
    }
}

/// The word that names a kind in a placeholder.
pub open spec fn kind_word(kind: Kind) -> Seq<char> {
    match kind {
        Kind::SeqNum => seq!['S', 'e', 'q', 'N', 'u', 'm'],
        Kind::Uuid => seq!['U', 'U', 'I', 'D'],
    }
}

/// Whether `w` stands in `s` at position `i`.
pub open spec fn has_at(s: Seq<char>, i: int, w: Seq<char>) -> bool {
    0 <= i && i + w.len() <= s.len() && s.subrange(i, i + w.len()) == w
}

/// The kind whose word, followed by `>`, stands in `s` at position `i`.
pub open spec fn kind_at(s: Seq<char>, i: int) -> Option<Kind> {
    if has_at(s, i, kind_word(Kind::SeqNum).push('>')) {
        Some(Kind::SeqNum)
    } else if has_at(s, i, kind_word(Kind::Uuid).push('>')) {
        Some(Kind::Uuid)
    } else {
        None
    }
}

/// The placeholder that starts at position `i` of `s`, if one does.
pub open spec fn token_at(s: Seq<char>, i: int) -> Option<TokenSpec> {
    let n = ident_run(s, i + 1);
    let colon = i + 1 + n;
    if 0 <= i < s.len() && s[i] == '<' && n > 0 && is_ident_start(s[i + 1]) && colon < s.len()
        && s[colon] == ':' {
        match kind_at(s, colon + 1) {
            Some(kind) => Some(TokenSpec { name: s.subrange(i + 1, colon), kind }),
            None => None,
        }
    } else {
        None
    }
}

/// The number of characters that a placeholder takes in the text.
pub open spec fn token_len(t: TokenSpec) -> nat {
    t.name.len() + kind_word(t.kind).len() + 3
}

/// The text of a placeholder.
pub open spec fn token_text(t: TokenSpec) -> Seq<char> {
    seq!['<'] + t.name + seq![':'] + kind_word(t.kind) + seq!['>']
}

fn ident_start(c: char) -> (b: bool)
    ensures
        b == is_ident_start(c),
{
    ('a' <= c && c <= 'z') || ('A' <= c && c <= 'Z') || c == '_'
}

fn ident_char(c: char) -> (b: bool)
    ensures
        b == is_ident_char(c),
{
    ident_start(c) || ('0' <= c && c <= '9')
}

fn scan_kind(text: &Vec<char>, i: usize) -> (k: Option<Kind>)
    ensures
        k == kind_at(text@, i as int),
{
    let n = text.len();
    let ghost s = text@;
    if n >= 7 && i <= n - 7 && text[i] == 'S' && text[i + 1] == 'e' && text[i + 2] == 'q' && text[i
        + 3] == 'N' && text[i + 4] == 'u' && text[i + 5] == 'm' && text[i + 6] == '>' {
        assert(s.subrange(i as int, i + 7) =~= kind_word(Kind::SeqNum).push('>'));
        return Some(Kind::SeqNum);
    }
    proof {
        let w = kind_word(Kind::SeqNum).push('>');
        if has_at(s, i as int, w) {
            let sub = s.subrange(i as int, i + 7);
            assert(sub[0] == w[0] && sub[1] == w[1] && sub[2] == w[2] && sub[3] == w[3] && sub[4]
                == w[4] && sub[5] == w[5] && sub[6] == w[6]);
        }
    }
    if n >= 5 && i <= n - 5 && text[i] == 'U' && text[i + 1] == 'U' && text[i + 2] == 'I' && text[i
        + 3] == 'D' && text[i + 4] == '>' {
        assert(s.subrange(i as int, i + 5) =~= kind_word(Kind::Uuid).push('>'));
        return Some(Kind::Uuid);
    }
    proof {
        let w = kind_word(Kind::Uuid).push('>');
        if has_at(s, i as int, w) {
            let sub = s.subrange(i as int, i + 5);
            assert(sub[0] == w[0] && sub[1] == w[1] && sub[2] == w[2] && sub[3] == w[3] && sub[4]
                == w[4]);
        }
    }
    None
}

/// Reads the placeholder that starts at position `i` of `text`, if one does.
pub fn scan_token(text: &Vec<char>, i: usize) -> (t: Option<Token>)
    ensures
        t.is_some() == token_at(text@, i as int).is_some(),
        t.is_some() ==> t.unwrap()@ == token_at(text@, i as int).unwrap(),
        t.is_some() ==> t.unwrap().len == token_len(t.unwrap()@) && i + t.unwrap().len
            <= text@.len(),
{
    let n = text.len();
    let ghost s = text@;
    if i >= n || text[i] != '<' {
        return None;
    }
    if i + 1 >= n || !ident_start(text[i + 1]) {
        return None;
    }
    let mut name: Vec<char> = Vec::new();
    let mut j: usize = i + 1;
    while j < n && ident_char(text[j])
        invariant
            n == text.len(),
            s == text@,
            i + 1 <= j <= n,
            ident_run(s, i + 1) == (j - (i + 1)) + ident_run(s, j as int),
            name@ == s.subrange(i + 1, j as int),
        decreases n - j,
    {
        name.push(text[j]);
        j += 1;
        assert(name@ =~= s.subrange(i + 1, j as int));
    }
    assert(ident_run(s, j as int) == 0);
    if j >= n || text[j] != ':' {
        return None;
    }
    match scan_kind(text, j + 1) {
        Some(kind) => {
            let word: usize = match kind {
                Kind::SeqNum => 6,
                Kind::Uuid => 4,
            };
            Some(Token { name: string_of(&name), kind, len: j - i + word + 2 })
        },
        None => None,
    }
}

/// The first entry of `params`, from position `k` on, that carries `name`.
pub open spec fn lookup_from(params: Seq<ParamSpec>, name: Seq<char>, k: int) -> Option<ParamSpec>
    decreases params.len() - k,
{
    if k < 0 || k >= params.len() {
        None
    } else if params[k].name == name {
        Some(params[k])
    } else {
        lookup_from(params, name, k + 1)
    }
}

/// The first entry of `params` that carries `name`.
pub open spec fn lookup(params: Seq<ParamSpec>, name: Seq<char>) -> Option<ParamSpec> {
    lookup_from(params, name, 0)
}

/// The number at index 0 of a placeholder with the table entry `param`.
pub open spec fn base_of(param: Option<ParamSpec>, init: u64) -> u64 {
    match param {
        Some(p) => match p.init_seq_num {
            Some(b) => b,
            None => init,
        },
        None => init,
    }
}

/// The step of a placeholder with the table entry `param`.
pub open spec fn step_of(param: Option<ParamSpec>) -> u64 {
    match param {
        Some(p) => match p.step {
            Some(s) => s,
            None => 1,
        },
        None => 1,
    }
}

/// The number that a `SeqNum` placeholder named `name` stands for at `index`.
pub open spec fn seq_value(params: Seq<ParamSpec>, init: u64, name: Seq<char>, index: u64) -> nat {
    let param = lookup(params, name);
    (base_of(param, init) + step_of(param) * index) as nat
}

/// The expansion of `s` from position `i` on: each `SeqNum` placeholder gives
/// way to the decimal numeral of its number, every other character stays.
pub open spec fn expand_from(
    s: Seq<char>,
    i: int,
    params: Seq<ParamSpec>,
    init: u64,
    index: u64,
) -> Seq<char>
    decreases s.len() - i,
{
    if i < 0 || i >= s.len() {
        Seq::empty()
    } else {
        match token_at(s, i) {
            Some(t) => if t.kind == Kind::SeqNum {
                decimal(seq_value(params, init, t.name, index)) + expand_from(
                    s,
                    i + token_len(t),
                    params,
                    init,
                    index,
                )
            } else {
                seq![s[i]] + expand_from(s, i + 1, params, init, index)
            },
            None => seq![s[i]] + expand_from(s, i + 1, params, init, index),
        }
    }
}

/// The expansion of a template text for the request at `index`.
pub open spec fn expanded(s: Seq<char>, params: Seq<ParamSpec>, init: u64, index: u64) -> Seq<
    char,
> {
    expand_from(s, 0, params, init, index)
}

/// Finds the first entry of `params` that carries `name`.
pub fn find_param(params: &Vec<Param>, name: &String) -> (found: Option<usize>)
    ensures
        match found {
            Some(k) => {
                &&& k < params.len()
                &&& params@[k as int].name@ == name@
                &&& forall|j: int| 0 <= j < k ==> (#[trigger] params@[j]).name@ != name@
                &&& lookup(param_views(params@), name@) == Some(params@[k as int]@)
            },
            None => {
                &&& forall|j: int| 0 <= j < params.len() ==> (#[trigger] params@[j]).name@ != name@
                &&& lookup(param_views(params@), name@).is_none()
            },
        },
{
    let ghost table = param_views(params@);
    let mut k: usize = 0;
    while k < params.len()
        invariant
            k <= params.len(),
            table == param_views(params@),
            lookup_from(table, name@, k as int) == lookup(table, name@),
            forall|j: int| 0 <= j < k ==> (#[trigger] params@[j]).name@ != name@,
        decreases params.len() - k,
    {
        if params[k].name == *name {
            return Some(k);
        }
        k += 1;
    }
    None
}

/// Finds the number that a `SeqNum` placeholder named `name` stands for at `index`.
pub fn seq_num(params: &Vec<Param>, init: u64, name: &String, index: u64) -> (value: u128)
    ensures
        value == seq_value(param_views(params@), init, name@, index),
{
    let mut base: u64 = init;
    let mut step: u64 = 1;
    match find_param(params, name) {
        Some(k) => {
            match params[k].init_seq_num {
                Some(b) => {
                    base = b;
                },
                None => {},
            }
            match params[k].step {
                Some(s) => {
                    step = s;
                },
                None => {},
            }
        },
        None => {},
    }
    assert(step * index <= u64::MAX * u64::MAX) by (nonlinear_arith)
        requires
            0 <= step <= u64::MAX,
            0 <= index <= u64::MAX,
    ;
    (base as u128) + (step as u128) * (index as u128)
}

/// Expands a template text for the request at `index`.
pub fn expand(text: &str, params: &Vec<Param>, init: u64, index: u64) -> (out: String)
    ensures
        out@ == expanded(text@, param_views(params@), init, index),
{
    let src = chars_of(text);
    let ghost s = src@;
    let ghost table = param_views(params@);
    let mut out: Vec<char> = Vec::new();
    let mut i: usize = 0;
    while i < src.len()
        invariant
            i <= src.len(),
            s == src@,
            table == param_views(params@),
            out@ + expand_from(s, i as int, table, init, index) == expanded(
                s,
                table,
                init,
                index,
            ),
        decreases src.len() - i,
    {
        let ghost before = out@;
        let mut advance: usize = 1;
        let mut copied: bool = true;
        match scan_token(&src, i) {
            Some(t) => {
                match t.kind {
                    Kind::SeqNum => {
                        let value = seq_num(params, init, &t.name, index);
                        push_decimal(&mut out, value);
                        advance = t.len;
                        copied = false;
                    },
                    Kind::Uuid => {},
                }
            },
            None => {},
        }
        if copied {
            out.push(src[i]);
        }
        proof {
            let rest = expand_from(s, i + advance, table, init, index);
            assert(out@ + rest =~= before + expand_from(s, i as int, table, init, index));
        }
        i += advance;
    }
    string_of(&out)
}

/// Whether `name` can stand in a placeholder: a letter or an underscore,
/// then letters, digits and underscores.
pub open spec fn is_identifier(name: Seq<char>) -> bool {
    &&& name.len() > 0
    &&& is_ident_start(name[0])
    &&& forall|j: int| 0 <= j < name.len() ==> is_ident_char(#[trigger] name[j])
}

/// A `SeqNum` placeholder whose table entry gives the start `b` and the step
/// `s` stands at index `i` for the number `b + s * i`.
pub proof fn seq_value_of_entry(
    params: Seq<ParamSpec>,
    init: u64,
    name: Seq<char>,
    index: u64,
    b: u64,
    s: u64,
)
    requires
        lookup(params, name).is_some(),
        lookup(params, name).unwrap().init_seq_num == Some(b),
        lookup(params, name).unwrap().step == Some(s),
    ensures
        seq_value(params, init, name, index) == b + s * index,
{
    assert(s * index >= 0) by (nonlinear_arith)
        requires
            s >= 0,
            index >= 0,
    ;
}

/// A `SeqNum` placeholder without a table entry counts from the job's own
/// start in steps of 1; an entry without a start counts from the job's own
/// start too, and an entry without a step in steps of 1.
pub proof fn seq_value_of_defaults(params: Seq<ParamSpec>, init: u64, name: Seq<char>, index: u64)
    ensures
        lookup(params, name).is_none() ==> seq_value(params, init, name, index) == init + index,
        lookup(params, name).is_some() && lookup(params, name).unwrap().init_seq_num.is_none()
            ==> base_of(lookup(params, name), init) == init,
        lookup(params, name).is_some() && lookup(params, name).unwrap().step.is_none() ==> step_of(
            lookup(params, name),
        ) == 1,
        seq_value(params, init, name, index) == base_of(lookup(params, name), init) + step_of(
            lookup(params, name),
        ) * index,
{
    assert(step_of(lookup(params, name)) * index >= 0) by (nonlinear_arith)
        requires
            step_of(lookup(params, name)) >= 0,
            index >= 0,
    ;
}

/// Whether a word stands at a position depends on the text from there on alone.
proof fn has_at_shift(a: Seq<char>, b: Seq<char>, k: int, w: Seq<char>)
    requires
        k >= 0,
    ensures
        has_at(a + b, a.len() + k, w) == has_at(b, k, w),
{
    if k + w.len() <= b.len() {
        assert((a + b).subrange(a.len() + k, a.len() + k + w.len()) =~= b.subrange(
            k,
            k + w.len(),
        ));
    }
}

/// A run of identifier characters depends on the text from its start on alone.
proof fn ident_run_shift(a: Seq<char>, b: Seq<char>, k: int)
    requires
        k >= 0,
    ensures
        ident_run(a + b, a.len() + k) == ident_run(b, k),
    decreases b.len() - k,
{
    if k < b.len() {
        assert((a + b)[a.len() + k] == b[k]);
        if is_ident_char(b[k]) {
            ident_run_shift(a, b, k + 1);
        }
    }
}

/// A run of identifier characters does not reach beyond the text.
proof fn ident_run_bound(s: Seq<char>, i: int)
    requires
        0 <= i,
    ensures
        i + ident_run(s, i) <= s.len() || ident_run(s, i) == 0,
    decreases s.len() - i,
{
    if i < s.len() && is_ident_char(s[i]) {
        ident_run_bound(s, i + 1);
    }
}

/// Whether a placeholder starts at a position depends on the text from that
/// position on alone.
proof fn token_at_shift(a: Seq<char>, b: Seq<char>, k: int)
    requires
        k >= 0,
    ensures
        token_at(a + b, a.len() + k) == token_at(b, k),
{
    let s = a + b;
    ident_run_shift(a, b, k + 1);
    ident_run_bound(b, k + 1);
    let n = ident_run(b, k + 1);
    let colon = k + 1 + n;
    has_at_shift(a, b, colon + 1, kind_word(Kind::SeqNum).push('>'));
    has_at_shift(a, b, colon + 1, kind_word(Kind::Uuid).push('>'));
    if k < b.len() {
        assert(s[a.len() + k] == b[k]);
        if n > 0 {
            assert(s[a.len() + k + 1] == b[k + 1]);
            if colon < b.len() {
                assert(s[a.len() + colon] == b[colon]);
                assert(s.subrange(a.len() + k + 1, a.len() + colon) =~= b.subrange(k + 1, colon));
            }
        }
    }
}

/// The expansion from a position on depends on the text from that position
/// on alone.
proof fn expand_from_shift(
    a: Seq<char>,
    b: Seq<char>,
    k: int,
    params: Seq<ParamSpec>,
    init: u64,
    index: u64,
)
    requires
        k >= 0,
    ensures
        expand_from(a + b, a.len() + k, params, init, index) == expand_from(
            b,
            k,
            params,
            init,
            index,
        ),
    decreases b.len() - k,
{
    if k < b.len() {
        token_at_shift(a, b, k);
        assert((a + b)[a.len() + k] == b[k]);
        match token_at(b, k) {
            Some(t) => {
                if t.kind == Kind::SeqNum {
                    expand_from_shift(a, b, k + token_len(t), params, init, index);
                } else {
                    expand_from_shift(a, b, k + 1, params, init, index);
                }
            },
            None => {
                expand_from_shift(a, b, k + 1, params, init, index);
            },
        }
    }
}

/// Text without `<` is copied as it is.
proof fn expand_plain(
    pre: Seq<char>,
    rest: Seq<char>,
    k: int,
    params: Seq<ParamSpec>,
    init: u64,
    index: u64,
)
    requires
        0 <= k <= pre.len(),
        forall|j: int| k <= j < pre.len() ==> pre[j] != '<',
    ensures
        expand_from(pre + rest, k, params, init, index) == pre.subrange(k, pre.len() as int)
            + expand_from(rest, 0, params, init, index),
    decreases pre.len() - k,
{
    let s = pre + rest;
    if k < pre.len() {
        assert(s[k] == pre[k]);
        expand_plain(pre, rest, k + 1, params, init, index);
        assert(pre.subrange(k, pre.len() as int) =~= seq![pre[k]] + pre.subrange(
            k + 1,
            pre.len() as int,
        ));
        assert(seq![pre[k]] + (pre.subrange(k + 1, pre.len() as int) + expand_from(
            rest,
            0,
            params,
            init,
            index,
        )) =~= (seq![pre[k]] + pre.subrange(k + 1, pre.len() as int)) + expand_from(
            rest,
            0,
            params,
            init,
            index,
        ));
    } else {
        expand_from_shift(pre, rest, 0, params, init, index);
        assert(pre.subrange(k, pre.len() as int) + expand_from(rest, 0, params, init, index)
            =~= expand_from(rest, 0, params, init, index));
    }
}

/// Identifier characters that end before another character make a run of
/// just their number.
proof fn ident_run_exact(s: Seq<char>, i: int, n: nat)
    requires
        0 <= i,
        i + n < s.len(),
        forall|j: int| i <= j < i + n ==> is_ident_char(s[j]),
        !is_ident_char(s[i + n]),
    ensures
        ident_run(s, i) == n,
    decreases n,
{
    if n > 0 {
        ident_run_exact(s, i + 1, (n - 1) as nat);
    }
}

/// The text of a placeholder is read as that placeholder, whatever follows it.
pub proof fn token_text_is_token(t: TokenSpec, post: Seq<char>)
    requires
        is_identifier(t.name),
    ensures
        token_at(token_text(t) + post, 0) == Some(t),
        token_text(t).len() == token_len(t),
        forall|j: int| 1 <= j < token_text(t).len() ==> token_text(t)[j] != '<',
{
    let tok = token_text(t);
    let s = tok + post;
    let n = t.name.len() as int;
    let w = kind_word(t.kind).push('>');
    assert(tok.len() == n + 2 + w.len());
    assert(s[0] == '<');
    assert forall|j: int| 1 <= j < 1 + n implies is_ident_char(s[j]) by {
        assert(s[j] == t.name[j - 1]);
    }
    assert(s[1 + n] == ':');
    ident_run_exact(s, 1, n as nat);
    assert(s[1] == t.name[0]);
    assert(s.subrange(1, 1 + n) =~= t.name);
    assert forall|j: int| 0 <= j < w.len() implies s[n + 2 + j] == w[j] by {
        assert(s[n + 2 + j] == tok[n + 2 + j]);
    }
    assert(s.subrange(n + 2, n + 2 + w.len()) =~= w);
    if t.kind == Kind::Uuid {
        let other = kind_word(Kind::SeqNum).push('>');
        if has_at(s, n + 2, other) {
            assert(s.subrange(n + 2, n + 2 + other.len())[0] == other[0]);
            assert(s[n + 2] == w[0]);
        }
    }
    assert forall|j: int| 1 <= j < tok.len() implies tok[j] != '<' by {
        if j < 1 + n {
            assert(tok[j] == t.name[j - 1]);
        } else if j == 1 + n {
        } else {
            assert(tok[j] == w[j - n - 2]);
        }
    }
}

/// What a placeholder gives way to: a `SeqNum` placeholder to the decimal
/// numeral of its number, any other to its own text.
pub open spec fn replacement(t: TokenSpec, params: Seq<ParamSpec>, init: u64, index: u64) -> Seq<
    char,
> {
    if t.kind == Kind::SeqNum {
        decimal(seq_value(params, init, t.name, index))
    } else {
        token_text(t)
    }
}

/// A placeholder in a text gives way to its replacement, and the text around
/// it is expanded on its own: where no `<` stands before the placeholder, the
/// text before it stays as it is, and what follows it is expanded as if it
/// stood alone.
pub proof fn expanded_around_token(
    pre: Seq<char>,
    t: TokenSpec,
    post: Seq<char>,
    params: Seq<ParamSpec>,
    init: u64,
    index: u64,
)
    requires
        is_identifier(t.name),
        forall|j: int| 0 <= j < pre.len() ==> pre[j] != '<',
    ensures
        expanded(pre + token_text(t) + post, params, init, index) == pre + replacement(
            t,
            params,
            init,
            index,
        ) + expanded(post, params, init, index),
{
    let tok = token_text(t);
    let tail = expand_from(post, 0, params, init, index);
    token_text_is_token(t, post);
    assert(pre + tok + post =~= pre + (tok + post));
    expand_plain(pre, tok + post, 0, params, init, index);
    assert(pre.subrange(0, pre.len() as int) =~= pre);
    if t.kind == Kind::SeqNum {
        expand_from_shift(tok, post, 0, params, init, index);
    } else {
        expand_plain(tok, post, 1, params, init, index);
        assert(seq![tok[0]] + tok.subrange(1, tok.len() as int) =~= tok);
        assert(seq![tok[0]] + (tok.subrange(1, tok.len() as int) + tail) =~= (seq![tok[0]]
            + tok.subrange(1, tok.len() as int)) + tail);
    }
    assert(expand_from(tok + post, 0, params, init, index) == replacement(t, params, init, index)
        + tail);
    assert(pre + (replacement(t, params, init, index) + tail) =~= pre + replacement(
        t,
        params,
        init,
        index,
    ) + tail);
}

/// Text without `<` holds no placeholder and is its own expansion.
pub proof fn expanded_plain_text(text: Seq<char>, params: Seq<ParamSpec>, init: u64, index: u64)
    requires
        forall|j: int| 0 <= j < text.len() ==> text[j] != '<',
    ensures
        expanded(text, params, init, index) == text,
{
    expand_plain(text, Seq::empty(), 0, params, init, index);
    assert(text + Seq::<char>::empty() =~= text);
    assert(text.subrange(0, text.len() as int) =~= text);
    assert(text + expand_from(Seq::<char>::empty(), 0, params, init, index) =~= text);
}

} // verus!
