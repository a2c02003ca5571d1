//! A minimal JSON value model: the wire shape of every chat frame.
//!
//! The grammar is the compact form the chat service exchanges: objects,
//! arrays, strings (with single-character escapes), unsigned decimal
//! numbers, and the three literals. A frame outside this grammar is
//! treated as unparseable and discarded by the session, per the
//! protocol's tolerance policy.

use vstd::prelude::*;

verus! {

/// Mathematical model of a JSON document.
pub enum JVal {
    Null,
    Bool(bool),
    Num(u64),
    Str(Seq<char>),
    Arr(Seq<JVal>),
    Obj(Seq<(Seq<char>, JVal)>),
}

/// Executable JSON document.
#[derive(Debug)]
pub enum Json {
    Null,
    Bool(bool),
    Num(u64),
    Str(Vec<char>),
    Arr(Vec<Json>),
    Obj(Vec<(Vec<char>, Json)>),
}

broadcast use vstd::seq::group_seq_axioms, vstd::std_specs::vec::group_vec_axioms;

/// The model a `Json` value stands for.
pub open spec fn jview(j: Json) -> JVal
    decreases j, 1int,
{
    match j {
        Json::Null => JVal::Null,
        Json::Bool(b) => JVal::Bool(b),
        Json::Num(n) => JVal::Num(n),
        Json::Str(s) => JVal::Str(s@),
        Json::Arr(a) => JVal::Arr(jview_seq(a@)),
        Json::Obj(m) => JVal::Obj(jview_membs(m@)),
    }
}

/// The models of a sequence of `Json` values, in order.
pub open spec fn jview_seq(a: Seq<Json>) -> Seq<JVal>
    decreases a, 0int,
{
    if a.len() == 0 {
        Seq::empty()
    } else {
        seq![jview(a[0])] + jview_seq(a.drop_first())
    }
}

/// The models of a sequence of `Json` object members, in order.
pub open spec fn jview_membs(m: Seq<(Vec<char>, Json)>) -> Seq<(Seq<char>, JVal)>
    decreases m, 0int,
{
    if m.len() == 0 {
        Seq::empty()
    } else {
        seq![(m[0].0@, jview(m[0].1))] + jview_membs(m.drop_first())
    }
}

// ---------------------------------------------------------------------------
// Printing
// ---------------------------------------------------------------------------

pub open spec fn is_digit(c: char) -> bool {
    '0' <= c && c <= '9'
}

pub open spec fn digit_char(d: nat) -> char {
    ((48 + d) as u8) as char
}

pub open spec fn digit_val(c: char) -> nat {
    ((c as int) - 48) as nat
}

/// Decimal digits of `n`, most significant first.
pub open spec fn dec_of(n: nat) -> Seq<char>
    decreases n,
{
    if n < 10 {
        seq![digit_char(n)]
    } else {
        dec_of(n / 10).push(digit_char(n % 10))
    }
}

/// Whether a character is written with a two-character escape inside
/// a JSON string: the quote, the backslash, and the five control
/// characters with short escapes of their own.
pub open spec fn needs_escape(c: char) -> bool {
    c == '"' || c == '\\' || c == '\n' || c == '\t' || c == '\r' || c == '\u{0008}' || c
        == '\u{000C}'
}

/// The mark written after the backslash for an escaped character.
pub open spec fn esc_mark(c: char) -> char {
    if c == '"' || c == '\\' {
        c
    } else if c == '\n' {
        'n'
    } else if c == '\t' {
        't'
    } else if c == '\r' {
        'r'
    } else if c == '\u{0008}' {
        'b'
    } else {
        'f'
    }
}

/// How one character is written inside a JSON string.
pub open spec fn esc_char(c: char) -> Seq<char> {
    if needs_escape(c) {
        seq!['\\', esc_mark(c)]
    } else {
        seq![c]
    }
}

/// The body of a printed JSON string.
pub open spec fn escape_str(s: Seq<char>) -> Seq<char>
    decreases s.len(),
{
    if s.len() == 0 {
        Seq::empty()
    } else {
        esc_char(s[0]) + escape_str(s.drop_first())
    }
}

/// The printed form of a value, in the compact wire shape.
pub open spec fn print_jval(v: JVal) -> Seq<char>
    decreases v,
{
    match v {
        JVal::Null => seq!['n', 'u', 'l', 'l'],
        JVal::Bool(b) => if b {
            seq!['t', 'r', 'u', 'e']
        } else {
            seq!['f', 'a', 'l', 's', 'e']
        },
        JVal::Num(n) => dec_of(n as nat),
        JVal::Str(s) => seq!['"'] + escape_str(s) + seq!['"'],
        JVal::Arr(a) => seq!['['] + print_elems(a) + seq![']'],
        JVal::Obj(m) => seq!['{'] + print_membs(m) + seq!['}'],
    }
}

/// Comma-separated printed elements of an array.
pub open spec fn print_elems(a: Seq<JVal>) -> Seq<char>
    decreases a,
{
    if a.len() == 0 {
        Seq::empty()
    } else if a.len() == 1 {
        print_jval(a[0])
    } else {
        print_jval(a[0]) + seq![','] + print_elems(a.drop_first())
    }
}

/// Comma-separated printed members of an object.
pub open spec fn print_membs(m: Seq<(Seq<char>, JVal)>) -> Seq<char>
    decreases m,
{
    if m.len() == 0 {
        Seq::empty()
    } else if m.len() == 1 {
        print_memb(m[0])
    } else {
        print_memb(m[0]) + seq![','] + print_membs(m.drop_first())
    }
}

pub open spec fn print_memb(p: (Seq<char>, JVal)) -> Seq<char>
    decreases p,
{
    seq!['"'] + escape_str(p.0) + seq!['"', ':'] + print_jval(p.1)
}

// ---------------------------------------------------------------------------
// Parsing
// ---------------------------------------------------------------------------

/// What `\c` stands for inside a string, if anything.
pub open spec fn unesc_char(c: char) -> Option<char> {
    if c == '"' || c == '\\' || c == '/' {
        Some(c)
    } else if c == 'n' {
        Some('\n')
    } else if c == 't' {
        Some('\t')
    } else if c == 'r' {
        Some('\r')
    } else if c == 'b' {
        Some('\u{0008}')
    } else if c == 'f' {
        Some('\u{000C}')
    } else {
        None
    }
}

/// First index at or after `i` that does not hold a digit.
pub open spec fn digits_end(s: Seq<char>, i: int) -> int
    decreases s.len() - i,
{
    if 0 <= i && i < s.len() && is_digit(s[i]) {
        digits_end(s, i + 1)
    } else {
        i
    }
}

/// The number a digit string stands for.
pub open spec fn val_digits(d: Seq<char>) -> nat
    decreases d.len(),
{
    if d.len() == 0 {
        0
    } else {
        val_digits(d.drop_last()) * 10 + digit_val(d.last())
    }
}

/// Parse an unsigned decimal number at `i`.
pub open spec fn parse_number(s: Seq<char>, i: int) -> Option<(JVal, int)> {
    let j = digits_end(s, i);
    if j > i {
        let v = val_digits(s.subrange(i, j));
        if v <= u64::MAX as nat {
            Some((JVal::Num(v as u64), j))
        } else {
            None
        }
    } else {
        None
    }
}

/// Parse the body of a string, after the opening quote.
pub open spec fn parse_str_body(s: Seq<char>, i: int) -> Option<(Seq<char>, int)>
    decreases s.len() - i,
{
    if i < 0 || i >= s.len() {
        None
    } else if s[i] == '"' {
        Some((Seq::empty(), i + 1))
    } else if s[i] == '\\' {
        if i + 1 >= s.len() {
            None
        } else {
            match unesc_char(s[i + 1]) {
                None => None,
                Some(c) => match parse_str_body(s, i + 2) {
                    None => None,
                    Some((t, j)) => Some((seq![c] + t, j)),
                },
            }
        }
    } else {
        match parse_str_body(s, i + 1) {
            None => None,
            Some((t, j)) => Some((seq![s[i]] + t, j)),
        }
    }
}

/// Parse a quoted string at `i`.
pub open spec fn parse_string(s: Seq<char>, i: int) -> Option<(Seq<char>, int)> {
    if 0 <= i && i < s.len() && s[i] == '"' {
        parse_str_body(s, i + 1)
    } else {
        None
    }
}

/// Parse any value at `i`.
pub open spec fn parse_value(s: Seq<char>, i: int) -> Option<(JVal, int)>
    decreases s.len() - i, 2int,
{
    if i < 0 || i >= s.len() {
        None
    } else {
        let c = s[i];
        if c == 'n' {
            if i + 4 <= s.len() && s.subrange(i, i + 4) == seq!['n', 'u', 'l', 'l'] {
                Some((JVal::Null, i + 4))
            } else {
                None
            }
        } else if c == 't' {
            if i + 4 <= s.len() && s.subrange(i, i + 4) == seq!['t', 'r', 'u', 'e'] {
                Some((JVal::Bool(true), i + 4))
            } else {
                None
            }
        } else if c == 'f' {
            if i + 5 <= s.len() && s.subrange(i, i + 5) == seq!['f', 'a', 'l', 's', 'e'] {
                Some((JVal::Bool(false), i + 5))
            } else {
                None
            }
        } else if c == '"' {
            match parse_string(s, i) {
                None => None,
                Some((t, j)) => Some((JVal::Str(t), j)),
            }
        } else if is_digit(c) {
            parse_number(s, i)
        } else if c == '[' {
            if i + 1 < s.len() && s[i + 1] == ']' {
                Some((JVal::Arr(Seq::empty()), i + 2))
            } else {
                match parse_elems(s, i + 1) {
                    None => None,
                    Some((a, j)) => Some((JVal::Arr(a), j)),
                }
            }
        } else if c == '{' {
            if i + 1 < s.len() && s[i + 1] == '}' {
                Some((JVal::Obj(Seq::empty()), i + 2))
            } else {
                match parse_membs(s, i + 1) {
                    None => None,
                    Some((m, j)) => Some((JVal::Obj(m), j)),
                }
            }
        } else {
            None
        }
    }
}

/// Parse `value (',' value)* ']'` starting at `i`; the result index is
/// just past the closing bracket.
pub open spec fn parse_elems(s: Seq<char>, i: int) -> Option<(Seq<JVal>, int)>
    decreases s.len() - i, 3int,
{
    if i < 0 || i > s.len() {
        None
    } else {
        match parse_value(s, i) {
            None => None,
            Some((v, j)) => {
                if j <= i || j >= s.len() {
                    None
                } else if s[j] == ']' {
                    Some((seq![v], j + 1))
                } else if s[j] == ',' {
                    match parse_elems(s, j + 1) {
                        None => None,
                        Some((rest, k)) => Some((seq![v] + rest, k)),
                    }
                } else {
                    None
                }
            },
        }
    }
}

/// Parse `string ':' value (',' member)* '}'` starting at `i`; the result
/// index is just past the closing brace.
pub open spec fn parse_membs(s: Seq<char>, i: int) -> Option<(Seq<(Seq<char>, JVal)>, int)>
    decreases s.len() - i, 3int,
{
    if i < 0 || i >= s.len() || s[i] != '"' {
        None
    } else {
        match parse_string(s, i) {
            None => None,
            Some((k, j)) => {
                if j <= i || j >= s.len() || s[j] != ':' {
                    None
                } else {
                    match parse_value(s, j + 1) {
                        None => None,
                        Some((v, m)) => {
                            if m <= j + 1 || m >= s.len() {
                                None
                            } else if s[m] == '}' {
                                Some((seq![(k, v)], m + 1))
                            } else if s[m] == ',' {
                                match parse_membs(s, m + 1) {
                                    None => None,
                                    Some((rest, n)) => Some((seq![(k, v)] + rest, n)),
                                }
                            } else {
                                None
                            }
                        },
                    }
                }
            },
        }
    }
}

/// Parse a whole document: one value covering the entire text.
pub open spec fn parse_json(s: Seq<char>) -> Option<JVal> {
    match parse_value(s, 0) {
        None => None,
        Some((v, j)) => if j == s.len() {
            Some(v)
        } else {
            None
        },
    }
}

// ---------------------------------------------------------------------------
// Executable printing
// ---------------------------------------------------------------------------

/// Append the decimal digits of `n`.
pub fn push_dec(n: u64, out: &mut Vec<char>)
    ensures
        final(out)@ == old(out)@ + dec_of(n as nat),
    decreases n,
{
    if n < 10 {
        out.push((48u8 + n as u8) as char);
    } else {
        push_dec(n / 10, out);
        out.push((48u8 + (n % 10) as u8) as char);
    }
}

/// Append the escaped form of `s[i..]`.
fn push_escaped(s: &Vec<char>, i: usize, out: &mut Vec<char>)
    requires
        i <= s@.len(),
    ensures
        final(out)@ == old(out)@ + escape_str(s@.skip(i as int)),
    decreases s@.len() - i,
{
    if i == s.len() {
        assert(s@.skip(i as int) =~= Seq::<char>::empty());
    } else {
        let c = s[i];
        if c == '"' || c == '\\' {
            out.push('\\');
            out.push(c);
        } else if c == '\n' {
            out.push('\\');
            out.push('n');
        } else if c == '\t' {
            out.push('\\');
            out.push('t');
        } else if c == '\r' {
            out.push('\\');
            out.push('r');
        } else if c == '\u{0008}' {
            out.push('\\');
            out.push('b');
        } else if c == '\u{000C}' {
            out.push('\\');
            out.push('f');
        } else {
            out.push(c);
        }
        push_escaped(s, i + 1, out);
        assert(s@.skip(i as int).drop_first() =~= s@.skip(i as int + 1));
        assert(s@.skip(i as int)[0] == s@[i as int]);
    }
}

/// Append the printed form of `j`.
pub fn push_json(j: &Json, out: &mut Vec<char>)
    ensures
        final(out)@ == old(out)@ + print_jval(jview(*j)),
    decreases j, 1int,
{
    match j {
        Json::Null => {
            out.push('n');
            out.push('u');
            out.push('l');
            out.push('l');
            assert(old(out)@ + seq!['n'] + seq!['u'] + seq!['l'] + seq!['l'] =~= old(out)@
                + seq!['n', 'u', 'l', 'l']);
        },
        Json::Bool(b) => {
            if *b {
                out.push('t');
                out.push('r');
                out.push('u');
                out.push('e');
                assert(old(out)@ + seq!['t'] + seq!['r'] + seq!['u'] + seq!['e'] =~= old(out)@
                    + seq!['t', 'r', 'u', 'e']);
            } else {
                out.push('f');
                out.push('a');
                out.push('l');
                out.push('s');
                out.push('e');
                assert(old(out)@ + seq!['f'] + seq!['a'] + seq!['l'] + seq!['s'] + seq!['e']
                    =~= old(out)@ + seq!['f', 'a', 'l', 's', 'e']);
            }
        },
        Json::Num(n) => {
            push_dec(*n, out);
        },
        Json::Str(s) => {
            out.push('"');
            push_escaped(s, 0, out);
            out.push('"');
            assert(s@.skip(0) =~= s@);
            assert(old(out)@ + seq!['"'] + escape_str(s@) + seq!['"'] =~= old(out)@ + (seq!['"']
                + escape_str(s@) + seq!['"']));
        },
        Json::Arr(a) => {
            out.push('[');
            if a.len() > 0 {
                push_elems(a, 0, out);
            }
            out.push(']');
            if a.len() == 0 {
                assert(jview_seq(a@) =~= Seq::<JVal>::empty());
            } else {
                assert(a@.skip(0) =~= a@);
            }
            assert(old(out)@ + seq!['['] + print_elems(jview_seq(a@)) + seq![']'] =~= old(out)@
                + (seq!['['] + print_elems(jview_seq(a@)) + seq![']']));
        },
        Json::Obj(m) => {
            out.push('{');
            if m.len() > 0 {
                push_membs(m, 0, out);
            }
            out.push('}');
            if m.len() == 0 {
                assert(jview_membs(m@) =~= Seq::<(Seq<char>, JVal)>::empty());
            } else {
                assert(m@.skip(0) =~= m@);
            }
            assert(old(out)@ + seq!['{'] + print_membs(jview_membs(m@)) + seq!['}'] =~= old(out)@
                + (seq!['{'] + print_membs(jview_membs(m@)) + seq!['}']));
        },
    }
}

/// Append the printed elements `a[i..]`, comma separated.
fn push_elems(a: &Vec<Json>, i: usize, out: &mut Vec<char>)
    requires
        i < a@.len(),
    ensures
        final(out)@ == old(out)@ + print_elems(jview_seq(a@.skip(i as int))),
    decreases a, 0int, a@.len() - i,
{
    proof {
        assert(a@.skip(i as int)[0] == a@[i as int]);
        assert(a@.skip(i as int).drop_first() =~= a@.skip(i as int + 1));
        assert(jview_seq(a@.skip(i as int)).drop_first() =~= jview_seq(a@.skip(i as int + 1)));
        assert(jview_seq(a@.skip(i as int))[0] == jview(a@[i as int]));
    }
    let n = a.len();
    push_json(&a[i], out);
    if i + 1 < n {
        out.push(',');
        push_elems(a, i + 1, out);
        assert(final(out)@ =~= old(out)@ + (print_jval(jview(a@[i as int])) + seq![',']
            + print_elems(jview_seq(a@.skip(i as int + 1)))));
    } else {
        assert(jview_seq(a@.skip(i as int)).len() == 1);
    }
}

/// Append the printed members `m[i..]`, comma separated.
fn push_membs(m: &Vec<(Vec<char>, Json)>, i: usize, out: &mut Vec<char>)
    requires
        i < m@.len(),
    ensures
        final(out)@ == old(out)@ + print_membs(jview_membs(m@.skip(i as int))),
    decreases m, 0int, m@.len() - i,
{
    proof {
        assert(m@.skip(i as int)[0] == m@[i as int]);
        assert(m@.skip(i as int).drop_first() =~= m@.skip(i as int + 1));
        assert(jview_membs(m@.skip(i as int)).drop_first() =~= jview_membs(
            m@.skip(i as int + 1)));
        assert(jview_membs(m@.skip(i as int))[0] == (m@[i as int].0@, jview(m@[i as int].1)));
    }
    let n = m.len();
    out.push('"');
    push_escaped(&m[i].0, 0, out);
    out.push('"');
    out.push(':');
    push_json(&m[i].1, out);
    proof {
        assert(m@[i as int].0@.skip(0) =~= m@[i as int].0@);
        assert(old(out)@ + seq!['"'] + escape_str(m@[i as int].0@) + seq!['"'] + seq![':']
            + print_jval(jview(m@[i as int].1)) =~= old(out)@ + print_memb(
            jview_membs(m@.skip(i as int))[0]));
    }
    if i + 1 < n {
        out.push(',');
        push_membs(m, i + 1, out);
        assert(final(out)@ =~= old(out)@ + (print_memb(jview_membs(m@.skip(i as int))[0])
            + seq![','] + print_membs(jview_membs(m@.skip(i as int + 1)))));
    } else {
        assert(jview_membs(m@.skip(i as int)).len() == 1);
    }
}

/// The printed text of a value, as characters.
pub fn print_json(j: &Json) -> (out: Vec<char>)
    ensures
        out@ == print_jval(jview(*j)),
{
    let mut out: Vec<char> = Vec::new();
    push_json(j, &mut out);
    assert(out@ =~= print_jval(jview(*j)));
    out
}

// ---------------------------------------------------------------------------
// Executable parsing
// ---------------------------------------------------------------------------

/// What an escape character stands for, if anything.
fn unesc_char_exec(c: char) -> (r: Option<char>)
    ensures
        r == unesc_char(c),
{
    if c == '"' || c == '\\' || c == '/' {
        Some(c)
    } else if c == 'n' {
        Some('\n')
    } else if c == 't' {
        Some('\t')
    } else if c == 'r' {
        Some('\r')
    } else if c == 'b' {
        Some('\u{0008}')
    } else if c == 'f' {
        Some('\u{000C}')
    } else {
        None
    }
}

/// Parse a string body, after the opening quote.
fn p_str_body(s: &Vec<char>, i: usize) -> (r: Option<(Vec<char>, usize)>)
    ensures
        match r {
            Some((t, k)) => parse_str_body(s@, i as int) == Some((t@, k as int)) && i < k
                <= s@.len(),
            None => parse_str_body(s@, i as int) is None,
        },
    decreases s@.len() - i,
{
    let n = s.len();
    if i >= n {
        None
    } else if s[i] == '"' {
        Some((Vec::new(), i + 1))
    } else if s[i] == '\\' {
        if i + 1 >= n {
            None
        } else {
            match unesc_char_exec(s[i + 1]) {
                None => None,
                Some(c) => match p_str_body(s, i + 2) {
                    None => None,
                    Some((t, j)) => {
                        let mut out = t;
                        out.insert(0, c);
                        proof {
                            assert(out@ =~= seq![c] + out@.drop_first());
                        }
                        Some((out, j))
                    },
                },
            }
        }
    } else {
        let c = s[i];
        match p_str_body(s, i + 1) {
            None => None,
            Some((t, j)) => {
                let mut out = t;
                out.insert(0, c);
                proof {
                    assert(out@ =~= seq![c] + out@.drop_first());
                }
                Some((out, j))
            },
        }
    }
}

/// Parse a quoted string at `i`.
fn p_string(s: &Vec<char>, i: usize) -> (r: Option<(Vec<char>, usize)>)
    ensures
        match r {
            Some((t, k)) => parse_string(s@, i as int) == Some((t@, k as int)) && i < k
                <= s@.len(),
            None => parse_string(s@, i as int) is None,
        },
    decreases s@.len() - i,
{
    if i < s.len() && s[i] == '"' {
        p_str_body(s, i + 1)
    } else {
        None
    }
}

/// Parse an unsigned decimal number at `i`.
fn p_number(s: &Vec<char>, i: usize) -> (r: Option<(u64, usize)>)
    requires
        i < s@.len(),
        is_digit(s@[i as int]),
    ensures
        match r {
            Some((v, k)) => parse_number(s@, i as int) == Some((JVal::Num(v), k as int)) && i < k
                <= s@.len(),
            None => parse_number(s@, i as int) is None,
        },
{
    let n = s.len();
    let mut k = i;
    let mut acc: u64 = 0;
    let mut over = false;
    while k < n && s[k] >= '0' && s[k] <= '9'
        invariant
            i <= k <= n,
            n == s@.len(),
            digits_end(s@, i as int) == digits_end(s@, k as int),
            forall|t: int| i <= t < k ==> is_digit(s@[t]),
            !over ==> acc as nat == val_digits(s@.subrange(i as int, k as int)),
            over ==> val_digits(s@.subrange(i as int, k as int)) > u64::MAX as nat,
        decreases n - k,
    {
        let d: u64 = (s[k] as u32 as u64) - 48;
        proof {
            assert(s@.subrange(i as int, k as int + 1).drop_last() =~= s@.subrange(
                i as int, k as int));
            assert(s@.subrange(i as int, k as int + 1).last() == s@[k as int]);
            assert(d as nat == digit_val(s@[k as int]));
        }
        if over {
            proof {
                let prev = val_digits(s@.subrange(i as int, k as int));
                assert(val_digits(s@.subrange(i as int, k as int + 1)) == prev * 10 + digit_val(
                    s@[k as int]));
                assert(prev * 10 >= prev) by (nonlinear_arith)
                    requires prev >= 0;
            }
        } else {
            match acc.checked_mul(10) {
                None => {
                    over = true;
                },
                Some(x) => match x.checked_add(d) {
                    None => {
                        over = true;
                    },
                    Some(y) => {
                        acc = y;
                    },
                },
            }
        }
        k = k + 1;
    }
    proof {
        assert(digits_end(s@, k as int) == k as int);
    }
    if k == i {
        None
    } else if over {
        None
    } else {
        Some((acc, k))
    }
}

/// Parse any value at `i`.
pub fn p_value(s: &Vec<char>, i: usize) -> (r: Option<(Json, usize)>)
    ensures
        match r {
            Some((v, k)) => parse_value(s@, i as int) == Some((jview(v), k as int)) && i < k
                <= s@.len(),
            None => parse_value(s@, i as int) is None,
        },
    decreases s@.len() - i, 2int,
{
    let n = s.len();
    if i >= n {
        return None;
    }
    let c = s[i];
    if c == 'n' {
        if n - i >= 4 && s[i + 1] == 'u' && s[i + 2] == 'l' && s[i + 3] == 'l' {
            proof {
                assert(s@.subrange(i as int, i as int + 4) =~= seq!['n', 'u', 'l', 'l']);
            }
            Some((Json::Null, i + 4))
        } else {
            proof {
                if i + 4 <= s@.len() {
                    assert(s@.subrange(i as int, i as int + 4) != seq!['n', 'u', 'l', 'l'])
                        by {
                        let t = s@.subrange(i as int, i as int + 4);
                        if t == seq!['n', 'u', 'l', 'l'] {
                            assert(t[1] == 'u' && t[2] == 'l' && t[3] == 'l');
                        }
                    }
                }
            }
            None
        }
    } else if c == 't' {
        if n - i >= 4 && s[i + 1] == 'r' && s[i + 2] == 'u' && s[i + 3] == 'e' {
            proof {
                assert(s@.subrange(i as int, i as int + 4) =~= seq!['t', 'r', 'u', 'e']);
            }
            Some((Json::Bool(true), i + 4))
        } else {
            proof {
                if i + 4 <= s@.len() {
                    assert(s@.subrange(i as int, i as int + 4) != seq!['t', 'r', 'u', 'e'])
                        by {
                        let t = s@.subrange(i as int, i as int + 4);
                        if t == seq!['t', 'r', 'u', 'e'] {
                            assert(t[1] == 'r' && t[2] == 'u' && t[3] == 'e');
                        }
                    }
                }
            }
            None
        }
    } else if c == 'f' {
        if n - i >= 5 && s[i + 1] == 'a' && s[i + 2] == 'l' && s[i + 3] == 's' && s[i + 4] == 'e' {
            proof {
                assert(s@.subrange(i as int, i as int + 5) =~= seq!['f', 'a', 'l', 's', 'e']);
            }
            Some((Json::Bool(false), i + 5))
        } else {
            proof {
                if i + 5 <= s@.len() {
                    assert(s@.subrange(i as int, i as int + 5) != seq!['f', 'a', 'l', 's', 'e'])
                        by {
                        let t = s@.subrange(i as int, i as int + 5);
                        if t == seq!['f', 'a', 'l', 's', 'e'] {
                            assert(t[1] == 'a' && t[2] == 'l' && t[3] == 's' && t[4] == 'e');
                        }
                    }
                }
            }
            None
        }
    } else if c == '"' {
        match p_string(s, i) {
            None => None,
            Some((t, j)) => Some((Json::Str(t), j)),
        }
    } else if c >= '0' && c <= '9' {
        match p_number(s, i) {
            None => None,
            Some((v, j)) => Some((Json::Num(v), j)),
        }
    } else if c == '[' {
        if i + 1 < n && s[i + 1] == ']' {
            proof {
                assert(jview_seq(Seq::<Json>::empty()) =~= Seq::<JVal>::empty());
            }
            Some((Json::Arr(Vec::new()), i + 2))
        } else {
            match p_elems(s, i + 1) {
                None => None,
                Some((a, j)) => Some((Json::Arr(a), j)),
            }
        }
    } else if c == '{' {
        if i + 1 < n && s[i + 1] == '}' {
            proof {
                assert(jview_membs(Seq::<(Vec<char>, Json)>::empty()) =~= Seq::<(
                    Seq<char>,
                    JVal,
                )>::empty());
            }
            Some((Json::Obj(Vec::new()), i + 2))
        } else {
            match p_membs(s, i + 1) {
                None => None,
                Some((m, j)) => Some((Json::Obj(m), j)),
            }
        }
    } else {
        None
    }
}

/// Parse array elements and the closing bracket.
fn p_elems(s: &Vec<char>, i: usize) -> (r: Option<(Vec<Json>, usize)>)
    ensures
        match r {
            Some((a, k)) => parse_elems(s@, i as int) == Some((jview_seq(a@), k as int)) && i < k
                <= s@.len(),
            None => parse_elems(s@, i as int) is None,
        },
    decreases s@.len() - i, 3int,
{
    let n = s.len();
    if i > n {
        return None;
    }
    match p_value(s, i) {
        None => None,
        Some((v, j)) => {
            if j >= n {
                None
            } else if s[j] == ']' {
                let mut out: Vec<Json> = Vec::new();
                out.push(v);
                proof {
                    assert(out@.drop_first() =~= Seq::<Json>::empty());
                    assert(jview_seq(Seq::<Json>::empty()) == Seq::<JVal>::empty());
                    assert(jview_seq(out@) =~= seq![jview(v)]);
                }
                Some((out, j + 1))
            } else if s[j] == ',' {
                match p_elems(s, j + 1) {
                    None => None,
                    Some((rest, k)) => {
                        let ghost rv = rest@;
                        let mut out: Vec<Json> = Vec::new();
                        out.push(v);
                        let mut rest = rest;
                        out.append(&mut rest);
                        proof {
                            assert(out@.drop_first() =~= rv);
                            assert(out@[0] == v);
                        }
                        Some((out, k))
                    },
                }
            } else {
                None
            }
        },
    }
}

/// Parse object members and the closing brace.
fn p_membs(s: &Vec<char>, i: usize) -> (r: Option<(Vec<(Vec<char>, Json)>, usize)>)
    ensures
        match r {
            Some((m, k)) => parse_membs(s@, i as int) == Some((jview_membs(m@), k as int)) && i < k
                <= s@.len(),
            None => parse_membs(s@, i as int) is None,
        },
    decreases s@.len() - i, 3int,
{
    let n = s.len();
    if i >= n || s[i] != '"' {
        return None;
    }
    match p_string(s, i) {
        None => None,
        Some((key, j)) => {
            if j >= n || s[j] != ':' {
                None
            } else {
                match p_value(s, j + 1) {
                    None => None,
                    Some((v, m)) => {
                        if m >= n {
                            None
                        } else if s[m] == '}' {
                            let mut out: Vec<(Vec<char>, Json)> = Vec::new();
                            out.push((key, v));
                            proof {
                                assert(out@.drop_first() =~= Seq::<(Vec<char>, Json)>::empty());
                                assert(jview_membs(Seq::<(Vec<char>, Json)>::empty()) == Seq::<(
                                    Seq<char>,
                                    JVal,
                                )>::empty());
                                assert(jview_membs(out@) =~= seq![
                                    (out@[0].0@, jview(out@[0].1)),
                                ]);
                            }
                            Some((out, m + 1))
                        } else if s[m] == ',' {
                            match p_membs(s, m + 1) {
                                None => None,
                                Some((rest, k)) => {
                                    let ghost rv = rest@;
                                    let ghost kv = key@;
                                    let mut out: Vec<(Vec<char>, Json)> = Vec::new();
                                    out.push((key, v));
                                    let mut rest = rest;
                                    out.append(&mut rest);
                                    proof {
                                        assert(out@.drop_first() =~= rv);
                                        assert(out@[0].0@ == kv && out@[0].1 == v);
                                    }
                                    Some((out, k))
                                },
                            }
                        } else {
                            None
                        }
                    },
                }
            }
        },
    }
}

/// Parse a whole document.
pub fn json_parse(s: &Vec<char>) -> (r: Option<Json>)
    ensures
        match r {
            Some(j) => parse_json(s@) == Some(jview(j)),
            None => parse_json(s@) is None,
        },
{
    match p_value(s, 0) {
        None => None,
        Some((v, j)) => {
            if j == s.len() {
                Some(v)
            } else {
                None
            }
        },
    }
}

} // verus!
