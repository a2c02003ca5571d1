//! Printing and parsing are inverse: a printed value parses back to
//! itself. This is the ground the codec's round-trip law stands on.

use vstd::prelude::*;
use crate::json::{
    JVal, dec_of, digit_char, digit_val, digits_end, esc_char, escape_str, is_digit,
    parse_elems, parse_json, parse_membs, parse_number, parse_str_body, parse_string,
    parse_value, print_elems, print_jval, print_memb, print_membs, unesc_char, val_digits,
};

verus! {

broadcast use vstd::seq::group_seq_axioms;

/// Characters that can open a printed value.
pub open spec fn starts_value(c: char) -> bool {
    c == 'n' || c == 't' || c == 'f' || c == '"' || is_digit(c) || c == '[' || c == '{'
}

/// If `p` sits in `s` at `i`, any piece of `p` sits in `s` at its offset.
proof fn lemma_chunk(s: Seq<char>, i: int, p: Seq<char>, a: int, b: int)
    requires
        0 <= i,
        i + p.len() <= s.len(),
        s.subrange(i, i + p.len() as int) == p,
        0 <= a <= b <= p.len(),
    ensures
        s.subrange(i + a, i + b) =~= p.subrange(a, b),
{
    assert forall|k: int| 0 <= k < b - a implies s.subrange(i + a, i + b)[k] == p.subrange(
        a,
        b,
    )[k] by {
        assert(p[a + k] == s.subrange(i, i + p.len() as int)[a + k]);
    }
}

/// If `p` sits in `s` at `i`, each character of `p` sits at its offset.
proof fn lemma_char_at(s: Seq<char>, i: int, p: Seq<char>, a: int)
    requires
        0 <= i,
        i + p.len() <= s.len(),
        s.subrange(i, i + p.len() as int) == p,
        0 <= a < p.len(),
    ensures
        s[i + a] == p[a],
{
    assert(p[a] == s.subrange(i, i + p.len() as int)[a]);
}

/// The decimal digits of `n` are digits and stand for `n` again.
pub proof fn lemma_dec_of(n: nat)
    ensures
        dec_of(n).len() >= 1,
        forall|t: int| 0 <= t < dec_of(n).len() ==> is_digit(#[trigger] dec_of(n)[t]),
        val_digits(dec_of(n)) == n,
    decreases n,
{
    if n < 10 {
        assert(dec_of(n) == seq![digit_char(n)]);
        assert(is_digit(digit_char(n)));
        assert(dec_of(n).drop_last() =~= Seq::<char>::empty());
        assert(dec_of(n).last() == digit_char(n));
        assert(val_digits(Seq::<char>::empty()) == 0);
        assert(digit_val(digit_char(n)) == n);
        assert(val_digits(dec_of(n)) == 0 * 10 + digit_val(digit_char(n)));
    } else {
        lemma_dec_of(n / 10);
        let p = dec_of(n / 10);
        assert(dec_of(n) == p.push(digit_char(n % 10)));
        assert(dec_of(n).drop_last() =~= p);
        assert(dec_of(n).last() == digit_char(n % 10));
        assert(is_digit(digit_char(n % 10)));
        assert forall|t: int| 0 <= t < dec_of(n).len() implies is_digit(
            #[trigger] dec_of(n)[t],
        ) by {
            if t < p.len() {
                assert(dec_of(n)[t] == p[t]);
            }
        }
        assert(digit_val(digit_char(n % 10)) == n % 10);
        assert(val_digits(dec_of(n)) == (n / 10) * 10 + n % 10);
    }
}

/// Where a run of digits starting at `i` ends.
proof fn lemma_digits_end_at(s: Seq<char>, i: int, j: int)
    requires
        0 <= i <= j <= s.len(),
        forall|t: int| i <= t < j ==> is_digit(#[trigger] s[t]),
        j == s.len() || !is_digit(s[j]),
    ensures
        digits_end(s, i) == j,
    decreases j - i,
{
    if i < j {
        lemma_digits_end_at(s, i + 1, j);
    }
}

/// A printed number parses back to itself when nothing right after it
/// could extend the digit run.
proof fn lemma_parse_number_at(n: u64, s: Seq<char>, i: int)
    requires
        0 <= i,
        i + dec_of(n as nat).len() <= s.len(),
        s.subrange(i, i + dec_of(n as nat).len() as int) == dec_of(n as nat),
        i + dec_of(n as nat).len() == s.len() || !is_digit(s[i + dec_of(n as nat).len() as int]),
    ensures
        parse_number(s, i) == Some((JVal::Num(n), i + dec_of(n as nat).len() as int)),
{
    lemma_dec_of(n as nat);
    let l = dec_of(n as nat).len() as int;
    assert forall|t: int| i <= t < i + l implies is_digit(#[trigger] s[t]) by {
        assert(s[t] == s.subrange(i, i + l)[t - i]);
    }
    lemma_digits_end_at(s, i, i + l);
    assert(val_digits(s.subrange(i, i + l)) == n as nat);
}

/// A printed string body followed by its closing quote parses back to
/// the original characters.
proof fn lemma_parse_str_body_at(t: Seq<char>, s: Seq<char>, i: int)
    requires
        0 <= i,
        i + escape_str(t).len() + 1 <= s.len(),
        s.subrange(i, i + escape_str(t).len() as int) == escape_str(t),
        s[i + escape_str(t).len() as int] == '"',
    ensures
        parse_str_body(s, i) == Some((t, i + escape_str(t).len() + 1)),
    decreases t.len(),
{
    let e = escape_str(t);
    if t.len() == 0 {
        assert(e.len() == 0);
        assert(s[i] == '"');
    } else {
        let c = t[0];
        let rest = t.drop_first();
        assert(e == esc_char(c) + escape_str(rest));
        if crate::json::needs_escape(c) {
            let mark = crate::json::esc_mark(c);
            assert(e[0] == '\\' && e[1] == mark);
            lemma_char_at(s, i, e, 0);
            lemma_char_at(s, i, e, 1);
            assert(unesc_char(mark) == Some(c));
            lemma_chunk(s, i, e, 2, e.len() as int);
            assert(e.subrange(2, e.len() as int) =~= escape_str(rest));
            lemma_parse_str_body_at(rest, s, i + 2);
            assert(seq![c] + rest =~= t);
        } else {
            assert(e[0] == c);
            lemma_char_at(s, i, e, 0);
            lemma_chunk(s, i, e, 1, e.len() as int);
            assert(e.subrange(1, e.len() as int) =~= escape_str(rest));
            lemma_parse_str_body_at(rest, s, i + 1);
            assert(seq![c] + rest =~= t);
        }
    }
}

/// A printed string parses back to itself.
proof fn lemma_parse_string_at(t: Seq<char>, s: Seq<char>, i: int)
    requires
        0 <= i,
        i + escape_str(t).len() + 2 <= s.len(),
        s[i] == '"',
        s.subrange(i + 1, i + 1 + escape_str(t).len() as int) == escape_str(t),
        s[i + 1 + escape_str(t).len() as int] == '"',
    ensures
        parse_string(s, i) == Some((t, i + escape_str(t).len() + 2)),
{
    lemma_parse_str_body_at(t, s, i + 1);
}

/// Every printed value is nonempty and opens with a value character.
pub proof fn lemma_print_first(v: JVal)
    ensures
        print_jval(v).len() >= 1,
        starts_value(print_jval(v)[0]),
{
    match v {
        JVal::Num(n) => {
            lemma_dec_of(n as nat);
        },
        _ => {},
    }
}

/// A printed value parses back to itself: the parser consumes exactly
/// the printed text and rebuilds the same value.
pub proof fn lemma_parse_print(v: JVal, s: Seq<char>, i: int)
    requires
        0 <= i,
        i + print_jval(v).len() <= s.len(),
        s.subrange(i, i + print_jval(v).len() as int) == print_jval(v),
        v is Num ==> i + print_jval(v).len() == s.len() || !is_digit(
            s[i + print_jval(v).len() as int],
        ),
    ensures
        parse_value(s, i) == Some((v, i + print_jval(v).len() as int)),
    decreases v, 1int,
{
    let p = print_jval(v);
    let l = p.len() as int;
    match v {
        JVal::Null => {
            assert(s.subrange(i, i + 4) == p);
            lemma_char_at(s, i, p, 0);
            assert(parse_value(s, i) == Some((v, i + l)));
        },
        JVal::Bool(b) => {
            lemma_char_at(s, i, p, 0);
            if b {
                assert(s.subrange(i, i + 4) == p);
            } else {
                assert(s.subrange(i, i + 5) == p);
            }
            assert(parse_value(s, i) == Some((v, i + l)));
        },
        JVal::Num(n) => {
            lemma_dec_of(n as nat);
            lemma_char_at(s, i, p, 0);
            assert(is_digit(s[i]));
            lemma_parse_number_at(n, s, i);
            assert(parse_value(s, i) == Some((v, i + l)));
        },
        JVal::Str(t) => {
            let ek = escape_str(t);
            assert(p == seq!['"'] + ek + seq!['"']);
            lemma_char_at(s, i, p, 0);
            assert(s[i] == '"');
            lemma_chunk(s, i, p, 1, 1 + ek.len() as int);
            assert(p.subrange(1, 1 + ek.len() as int) =~= ek);
            lemma_char_at(s, i, p, 1 + ek.len() as int);
            assert(p[1 + ek.len() as int] == '"');
            lemma_parse_string_at(t, s, i);
            assert(parse_value(s, i) == Some((v, i + l)));
        },
        JVal::Arr(a) => {
            lemma_char_at(s, i, p, 0);
            assert(s[i] == '[');
            if a.len() == 0 {
                assert(print_elems(a) == Seq::<char>::empty());
                assert(p =~= seq!['[', ']']);
                lemma_char_at(s, i, p, 1);
                assert(s[i + 1] == ']');
                assert(a =~= Seq::<JVal>::empty());
            } else {
                let pe = print_elems(a);
                assert(p == seq!['['] + pe + seq![']']);
                lemma_chunk(s, i, p, 1, 1 + pe.len() as int);
                assert(p.subrange(1, 1 + pe.len() as int) =~= pe);
                lemma_char_at(s, i, p, 1 + pe.len() as int);
                assert(p[1 + pe.len() as int] == ']');
                lemma_print_first(a[0]);
                assert(pe[0] == print_jval(a[0])[0]);
                lemma_char_at(s, i, p, 1);
                assert(s[i + 1] == pe[0]);
                assert(s[i + 1] != ']');
                lemma_parse_print_elems(a, s, i + 1);
            }
            assert(parse_value(s, i) == Some((v, i + l)));
        },
        JVal::Obj(m) => {
            lemma_char_at(s, i, p, 0);
            assert(s[i] == '{');
            if m.len() == 0 {
                assert(print_membs(m) == Seq::<char>::empty());
                assert(p =~= seq!['{', '}']);
                lemma_char_at(s, i, p, 1);
                assert(s[i + 1] == '}');
                assert(m =~= Seq::<(Seq<char>, JVal)>::empty());
            } else {
                let pm = print_membs(m);
                assert(p == seq!['{'] + pm + seq!['}']);
                lemma_chunk(s, i, p, 1, 1 + pm.len() as int);
                assert(p.subrange(1, 1 + pm.len() as int) =~= pm);
                lemma_char_at(s, i, p, 1 + pm.len() as int);
                assert(p[1 + pm.len() as int] == '}');
                assert(pm[0] == print_memb(m[0])[0]);
                lemma_char_at(s, i, p, 1);
                assert(s[i + 1] == '"');
                lemma_parse_print_membs(m, s, i + 1);
            }
            assert(parse_value(s, i) == Some((v, i + l)));
        },
    }
}

/// Printed array elements followed by `]` parse back to the elements.
pub proof fn lemma_parse_print_elems(a: Seq<JVal>, s: Seq<char>, i: int)
    requires
        a.len() >= 1,
        0 <= i,
        i + print_elems(a).len() + 1 <= s.len(),
        s.subrange(i, i + print_elems(a).len() as int) == print_elems(a),
        s[i + print_elems(a).len() as int] == ']',
    ensures
        parse_elems(s, i) == Some((a, i + print_elems(a).len() + 1)),
    decreases a, 0int,
{
    let pe = print_elems(a);
    let v0 = a[0];
    let p0 = print_jval(v0);
    let pl = p0.len() as int;
    lemma_print_first(v0);
    if a.len() == 1 {
        assert(pe == p0);
        lemma_parse_print(v0, s, i);
        assert(seq![v0] =~= a);
    } else {
        let rest = a.drop_first();
        let pr = print_elems(rest);
        assert(pe == p0 + seq![','] + pr);
        lemma_chunk(s, i, pe, 0, pl);
        assert(pe.subrange(0, pl) =~= p0);
        lemma_char_at(s, i, pe, pl);
        assert(pe[pl] == ',');
        assert(s[i + pl] == ',');
        lemma_parse_print(v0, s, i);
        lemma_chunk(s, i, pe, pl + 1, pe.len() as int);
        assert(pe.subrange(pl + 1, pe.len() as int) =~= pr);
        lemma_parse_print_elems(rest, s, i + pl + 1);
        assert(seq![v0] + rest =~= a);
    }
}

/// Printed object members followed by `}` parse back to the members.
pub proof fn lemma_parse_print_membs(m: Seq<(Seq<char>, JVal)>, s: Seq<char>, i: int)
    requires
        m.len() >= 1,
        0 <= i,
        i + print_membs(m).len() + 1 <= s.len(),
        s.subrange(i, i + print_membs(m).len() as int) == print_membs(m),
        s[i + print_membs(m).len() as int] == '}',
    ensures
        parse_membs(s, i) == Some((m, i + print_membs(m).len() + 1)),
    decreases m, 0int,
{
    let pm = print_membs(m);
    let key = m[0].0;
    let v0 = m[0].1;
    let p0 = print_memb(m[0]);
    let ek = escape_str(key);
    let pv = print_jval(v0);
    assert(p0 == seq!['"'] + ek + seq!['"', ':'] + pv);
    assert(p0.len() == ek.len() + 3 + pv.len());
    lemma_print_first(v0);
    if m.len() == 1 {
        assert(pm == p0);
    } else {
        assert(pm == p0 + seq![','] + print_membs(m.drop_first()));
    }
    // The member's own pieces, read off through `pm`.
    lemma_char_at(s, i, pm, 0);
    assert(pm[0] == p0[0]);
    assert(s[i] == '"');
    lemma_chunk(s, i, pm, 1, 1 + ek.len() as int);
    assert(pm.subrange(1, 1 + ek.len() as int) =~= ek) by {
        assert forall|k: int| 0 <= k < ek.len() implies pm.subrange(1, 1 + ek.len() as int)[k]
            == ek[k] by {
            assert(pm[1 + k] == p0[1 + k]);
            assert(p0[1 + k] == ek[k]);
        }
    }
    lemma_char_at(s, i, pm, 1 + ek.len() as int);
    assert(pm[1 + ek.len() as int] == p0[1 + ek.len() as int]);
    assert(p0[1 + ek.len() as int] == '"');
    lemma_parse_string_at(key, s, i);
    lemma_char_at(s, i, pm, ek.len() as int + 2);
    assert(pm[ek.len() as int + 2] == p0[ek.len() as int + 2]);
    assert(p0[ek.len() as int + 2] == ':');
    assert(s[i + ek.len() + 2] == ':');
    let vstart = i + ek.len() + 3;
    lemma_chunk(s, i, pm, ek.len() as int + 3, ek.len() + 3 + pv.len() as int);
    assert(pm.subrange(ek.len() as int + 3, ek.len() + 3 + pv.len() as int) =~= pv) by {
        assert forall|k: int| 0 <= k < pv.len() implies pm.subrange(
            ek.len() as int + 3,
            ek.len() + 3 + pv.len() as int,
        )[k] == pv[k] by {
            assert(pm[ek.len() + 3 + k] == p0[ek.len() + 3 + k]);
            assert(p0[ek.len() + 3 + k] == pv[k]);
        }
    }
    if m.len() == 1 {
        assert(vstart + pv.len() == i + pm.len());
        lemma_parse_print(v0, s, vstart);
        assert(seq![(key, v0)] =~= m);
    } else {
        let rest = m.drop_first();
        let pr = print_membs(rest);
        lemma_char_at(s, i, pm, p0.len() as int);
        assert(pm[p0.len() as int] == ',');
        assert(s[vstart + pv.len() as int] == ',');
        lemma_parse_print(v0, s, vstart);
        let rstart = vstart + pv.len() + 1;
        lemma_chunk(s, i, pm, p0.len() as int + 1, pm.len() as int);
        assert(pm.subrange(p0.len() as int + 1, pm.len() as int) =~= pr);
        lemma_parse_print_membs(rest, s, rstart);
        assert(seq![(key, v0)] + rest =~= m);
    }
}

/// Round trip for a whole document: printing and then parsing gives
/// back the same value.
pub proof fn lemma_print_parse_json(v: JVal)
    ensures
        parse_json(print_jval(v)) == Some(v),
{
    let s = print_jval(v);
    assert(s.subrange(0, s.len() as int) =~= s);
    lemma_parse_print(v, s, 0);
}

} // verus!
