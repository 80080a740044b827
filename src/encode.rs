//! Canonical query strings: `name=value` pairs joined by `&`, in the order in
//! which the pairs were given.

use vstd::prelude::*;
use vstd::string::*;
use crate::text::{Decimal, dec_text, push_char, u64_text};

verus! {

/// One query parameter: its name and its already rendered value.
pub type Param = (String, String);

/// The textual content of a parameter.
pub open spec fn param_view(p: Param) -> (Seq<char>, Seq<char>) {
    (p.0@, p.1@)
}

/// The textual content of a list of parameters, in order.
pub open spec fn params_view(ps: Seq<Param>) -> Seq<(Seq<char>, Seq<char>)> {
    ps.map_values(|p: Param| param_view(p))
}

/// `name=value`.
pub open spec fn pair_text(p: (Seq<char>, Seq<char>)) -> Seq<char> {
    p.0 + seq!['='] + p.1
}

/// The pairs rendered in order and joined by `&`; no pairs give the empty
/// string.
pub open spec fn query_text(ps: Seq<(Seq<char>, Seq<char>)>) -> Seq<char>
    decreases ps.len(),
{
    if ps.len() == 0 {
        Seq::empty()
    } else if ps.len() == 1 {
        pair_text(ps[0])
    } else {
        query_text(ps.drop_last()) + seq!['&'] + pair_text(ps.last())
    }
}

/// The pair list extended by `(name, v)` where a value is present, and left
/// as it is where it is absent.
pub open spec fn with_opt(
    ps: Seq<(Seq<char>, Seq<char>)>,
    name: Seq<char>,
    v: Option<Seq<char>>,
) -> Seq<(Seq<char>, Seq<char>)> {
    match v {
        Some(x) => ps.push((name, x)),
        None => ps,
    }
}

/// The text of an optional string.
pub open spec fn opt_string_text(v: Option<String>) -> Option<Seq<char>> {
    match v {
        Some(s) => Some(s@),
        None => None,
    }
}

/// The decimal text of an optional integer.
pub open spec fn opt_u64_text(v: Option<u64>) -> Option<Seq<char>> {
    match v {
        Some(n) => Some(dec_text(n as nat)),
        None => None,
    }
}

/// The text of an optional decimal number.
pub open spec fn opt_decimal_text(v: Option<Decimal>) -> Option<Seq<char>> {
    match v {
        Some(d) => Some(d.text()),
        None => None,
    }
}

/// Joins the parameters into one query string, in the order given.
pub fn encode_params(ps: &Vec<Param>) -> (r: String)
    ensures
        r@ == query_text(params_view(ps@)),
{
    let mut out = String::new();
    let mut i: usize = 0;
    while i < ps.len()
        invariant
            i <= ps@.len(),
            out@ == query_text(params_view(ps@).take(i as int)),
        decreases ps@.len() - i,
    {
        let ghost prev = params_view(ps@).take(i as int);
        let ghost next = params_view(ps@).take(i + 1);
        if i > 0 {
            push_char(&mut out, '&');
        }
        out.append(ps[i].0.as_str());
        push_char(&mut out, '=');
        out.append(ps[i].1.as_str());
        assert(next.drop_last() == prev);
        assert(next.last() == param_view(ps@[i as int]));
        if i == 0 {
            assert(out@ == pair_text(next[0]));
        }
        i = i + 1;
    }
    assert(params_view(ps@).take(i as int) == params_view(ps@));
    out
}

/// Appends a parameter.
pub fn push_param(ps: &mut Vec<Param>, name: &str, value: String)
    ensures
        params_view(final(ps)@) == params_view(old(ps)@).push((name@, value@)),
{
    ps.push((String::from_str(name), value));
    assert(params_view(final(ps)@) =~= params_view(old(ps)@).push((name@, value@)));
}

/// Appends a text parameter where a value is present.
pub fn push_opt_string(ps: &mut Vec<Param>, name: &str, v: &Option<String>)
    ensures
        params_view(final(ps)@) == with_opt(params_view(old(ps)@), name@, opt_string_text(*v)),
{
    match v {
        Some(s) => push_param(ps, name, s.clone()),
        None => {},
    }
}

/// Appends an integer parameter where a value is present.
pub fn push_opt_u64(ps: &mut Vec<Param>, name: &str, v: Option<u64>)
    ensures
        params_view(final(ps)@) == with_opt(params_view(old(ps)@), name@, opt_u64_text(v)),
{
    match v {
        Some(n) => push_param(ps, name, u64_text(n)),
        None => {},
    }
}

/// Appends a decimal parameter where a value is present.
pub fn push_opt_decimal(ps: &mut Vec<Param>, name: &str, v: Option<Decimal>)
    ensures
        params_view(final(ps)@) == with_opt(params_view(old(ps)@), name@, opt_decimal_text(v)),
{
    match v {
        Some(d) => push_param(ps, name, d.to_text()),
        None => {},
    }
}

} // verus!
