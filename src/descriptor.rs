//! Parsing of method descriptors such as `(Ljava/lang/String;I)V` into their
//! parameter and return type fragments.
use vstd::prelude::*;

use crate::error::ValidationError;

verus! {

/// The primitive type codes that may stand for a value.
pub open spec fn is_value_code(c: char) -> bool {
    c == 'I' || c == 'J' || c == 'B' || c == 'Z' || c == 'C' || c == 'S' || c == 'F' || c == 'D'
}

/// The characters that may stand in the path of an object reference.
pub open spec fn is_path_char(c: char) -> bool {
    c != ';' && c != '(' && c != ')' && c != '['
}

/// Where the rest of an object reference's path, from `j` on, ends: one past
/// its `;`, or -1 when there is no such end.
pub open spec fn path_end(s: Seq<char>, j: int) -> int
    decreases s.len() - j,
{
    if j < 0 || j >= s.len() {
        -1
    } else if s[j] == ';' {
        j + 1
    } else if is_path_char(s[j]) {
        path_end(s, j + 1)
    } else {
        -1
    }
}

/// Where the value type fragment that starts at `i` ends (one past it): any
/// number of `[`, then a primitive code or `L<path>;` with a non-empty path.
/// -1 when no fragment starts there.
pub open spec fn token_end(s: Seq<char>, i: int) -> int
    decreases s.len() - i,
{
    if i < 0 || i >= s.len() {
        -1
    } else if s[i] == '[' {
        token_end(s, i + 1)
    } else if is_value_code(s[i]) {
        i + 1
    } else if s[i] == 'L' && i + 1 < s.len() && s[i + 1] != ';' {
        path_end(s, i + 1)
    } else {
        -1
    }
}

/// The parameter fragments from `i` up to the closing `)`, with the index of
/// that `)`; `None` when something else stands in the way.
pub open spec fn parse_params(s: Seq<char>, i: int) -> Option<(Seq<Seq<char>>, int)>
    decreases s.len() - i,
{
    if i < 0 || i >= s.len() {
        None
    } else if s[i] == ')' {
        Some((Seq::empty(), i))
    } else {
        let e = token_end(s, i);
        if e <= i || e > s.len() {
            None
        } else {
            match parse_params(s, e) {
                Some((ts, k)) => Some((seq![s.subrange(i, e)] + ts, k)),
                None => None,
            }
        }
    }
}

/// The return fragment after the `)` at `k` is `V` or one value type
/// fragment, with nothing after it.
pub open spec fn return_ok(s: Seq<char>, k: int) -> bool {
    (k + 2 == s.len() && s[k + 1] == 'V') || token_end(s, k + 1) == s.len()
}

/// The descriptor `s` split into its parameter fragments and its return
/// fragment, or `None` when it is malformed.
pub open spec fn parse_spec(s: Seq<char>) -> Option<(Seq<Seq<char>>, Seq<char>)> {
    if s.len() > 0 && s[0] == '(' {
        match parse_params(s, 1) {
            Some((ps, k)) => if return_ok(s, k) {
                Some((ps, s.subrange(k + 1, s.len() as int)))
            } else {
                None
            },
            None => None,
        }
    } else {
        None
    }
}

/// The fragments written one after the other.
pub open spec fn concat(ts: Seq<Seq<char>>) -> Seq<char>
    decreases ts.len(),
{
    if ts.len() == 0 {
        Seq::empty()
    } else {
        ts[0] + concat(ts.drop_first())
    }
}

/// The descriptor text of a parameter list and a return fragment.
pub open spec fn serialize_spec(params: Seq<Seq<char>>, ret: Seq<char>) -> Seq<char> {
    seq!['('] + concat(params) + seq![')'] + ret
}

/// A descriptor split into type fragments.
pub struct ParsedSignature {
    pub params: Vec<Vec<char>>,
    pub ret: Vec<char>,
}

impl ParsedSignature {
    pub open spec fn params_view(&self) -> Seq<Seq<char>> {
        self.params@.map_values(|p: Vec<char>| p@)
    }
}

} // verus!

verus! {

/// Whether `c` is the code of a primitive value type.
pub fn is_value_code_exec(c: char) -> (r: bool)
    ensures
        r == is_value_code(c),
{
    c == 'I' || c == 'J' || c == 'B' || c == 'Z' || c == 'C' || c == 'S' || c == 'F' || c == 'D'
}

fn is_path_char_exec(c: char) -> (r: bool)
    ensures
        r == is_path_char(c),
{
    c != ';' && c != '(' && c != ')' && c != '['
}

/// The end of the value type fragment that starts at `start`, if one does.
fn scan_token(s: &Vec<char>, start: usize) -> (r: Option<usize>)
    requires
        start < s@.len(),
    ensures
        match r {
            Some(e) => token_end(s@, start as int) == e && start < e <= s@.len(),
            None => token_end(s@, start as int) <= start,
        },
{
    let n = s.len();
    let mut i: usize = start;
    while i < n && s[i] == '['
        invariant
            n == s@.len(),
            start <= i <= n,
            token_end(s@, start as int) == token_end(s@, i as int),
        decreases n - i,
    {
        i += 1;
    }
    if i >= n {
        return None;
    }
    if is_value_code_exec(s[i]) {
        return Some(i + 1);
    }
    if s[i] != 'L' || i + 1 >= n || s[i + 1] == ';' {
        return None;
    }
    let mut j: usize = i + 1;
    while j < n
        invariant
            n == s@.len(),
            start < j <= n,
            token_end(s@, start as int) == path_end(s@, j as int),
        decreases n - j,
    {
        if s[j] == ';' {
            return Some(j + 1);
        }
        if !is_path_char_exec(s[j]) {
            return None;
        }
        j += 1;
    }
    None
}

/// The characters of `s` from `from` up to `to`.
fn copy_range(s: &Vec<char>, from: usize, to: usize) -> (r: Vec<char>)
    requires
        from <= to <= s@.len(),
    ensures
        r@ == s@.subrange(from as int, to as int),
{
    let mut r: Vec<char> = Vec::new();
    let mut i: usize = from;
    while i < to
        invariant
            from <= i <= to <= s@.len(),
            r@ == s@.subrange(from as int, i as int),
        decreases to - i,
    {
        r.push(s[i]);
        i += 1;
        assert(r@ =~= s@.subrange(from as int, i as int));
    }
    r
}

/// Splits a descriptor into its parameter fragments and its return fragment.
/// The return fragment always comes after the parameter section.
/// The result depends on the descriptor's text alone.
pub fn parse_descriptor(descriptor: &str) -> (r: Result<ParsedSignature, ValidationError>)
    ensures
        match r {
            Ok(sig) => parse_spec(descriptor@) == Some((sig.params_view(), sig.ret@))
                && sig.ret@.len() < descriptor@.len(),
            Err(e) => e == ValidationError::MalformedDescriptor && parse_spec(descriptor@) is None,
        },
{
    let s = crate::text::chars_of(descriptor);
    let n = s.len();
    if n == 0 || s[0] != '(' {
        return Err(ValidationError::MalformedDescriptor);
    }
    let mut params: Vec<Vec<char>> = Vec::new();
    let mut i: usize = 1;
    loop
        invariant
            n == s@.len(),
            s@ == descriptor@,
            n > 0 && s@[0] == '(',
            1 <= i <= n,
            parse_params(s@, 1) == match parse_params(s@, i as int) {
                Some((ts, k)) => Some((params@.map_values(|p: Vec<char>| p@) + ts, k)),
                None => None,
            },
        decreases n - i,
    {
        if i >= n {
            return Err(ValidationError::MalformedDescriptor);
        }
        if s[i] == ')' {
            assert(parse_params(s@, i as int) == Some((Seq::<Seq<char>>::empty(), i as int)));
            assert(parse_params(s@, 1) == Some((params@.map_values(|p: Vec<char>| p@), i as int))) by {
                assert(params@.map_values(|p: Vec<char>| p@) + Seq::<Seq<char>>::empty() =~= params@.map_values(
                    |p: Vec<char>| p@,
                ));
            }
            let ok = if n - i == 2 && s[i + 1] == 'V' {
                true
            } else if i + 1 < n {
                match scan_token(&s, i + 1) {
                    Some(e) => e == n,
                    None => false,
                }
            } else {
                false
            };
            if !ok {
                return Err(ValidationError::MalformedDescriptor);
            }
            let ret = copy_range(&s, i + 1, n);
            return Ok(ParsedSignature { params, ret });
        }
        match scan_token(&s, i) {
            None => {
                return Err(ValidationError::MalformedDescriptor);
            },
            Some(e) => {
                let tok = copy_range(&s, i, e);
                let ghost before = params@.map_values(|p: Vec<char>| p@);
                params.push(tok);
                assert(params@.map_values(|p: Vec<char>| p@) =~= before.push(tok@));
                proof {
                    match parse_params(s@, e as int) {
                        Some((ts, k)) => {
                            assert(before + (seq![tok@] + ts) =~= before.push(tok@) + ts);
                        },
                        None => {},
                    }
                }
                i = e;
            },
        }
    }
}

proof fn lemma_params_text(s: Seq<char>, i: int)
    requires
        parse_params(s, i) is Some,
    ensures
        0 <= i <= parse_params(s, i)->Some_0.1 < s.len(),
        s[parse_params(s, i)->Some_0.1] == ')',
        concat(parse_params(s, i)->Some_0.0) == s.subrange(i, parse_params(s, i)->Some_0.1),
    decreases s.len() - i,
{
    if s[i] != ')' {
        let e = token_end(s, i);
        lemma_params_text(s, e);
        let (ts, k) = parse_params(s, e)->Some_0;
        let all = seq![s.subrange(i, e)] + ts;
        assert(all.drop_first() =~= ts);
        assert(s.subrange(i, e) + s.subrange(e, k) =~= s.subrange(i, k));
    } else {
        assert(s.subrange(i, i) =~= Seq::<char>::empty());
    }
}

/// Writing a parsed descriptor's fragments back out gives the descriptor
/// that was parsed.
pub proof fn lemma_round_trip(s: Seq<char>)
    requires
        parse_spec(s) is Some,
    ensures
        serialize_spec(parse_spec(s)->Some_0.0, parse_spec(s)->Some_0.1) == s,
{
    lemma_params_text(s, 1);
    let (ps, k) = parse_params(s, 1)->Some_0;
    assert(s =~= seq!['('] + s.subrange(1, k) + seq![')'] + s.subrange(k + 1, s.len() as int));
}

/// The descriptor text of a parsed signature.
pub fn serialize(sig: &ParsedSignature) -> (r: Vec<char>)
    ensures
        r@ == serialize_spec(sig.params_view(), sig.ret@),
{
    let mut r: Vec<char> = Vec::new();
    r.push('(');
    let mut i: usize = 0;
    while i < sig.params.len()
        invariant
            i <= sig.params@.len(),
            r@ == seq!['('] + concat(sig.params_view().subrange(0, i as int)),
        decreases sig.params@.len() - i,
    {
        let p = &sig.params[i];
        let ghost before = r@;
        let mut j: usize = 0;
        while j < p.len()
            invariant
                j <= p@.len(),
                r@ == before + p@.subrange(0, j as int),
            decreases p@.len() - j,
        {
            r.push(p[j]);
            j += 1;
            assert(r@ =~= before + p@.subrange(0, j as int));
        }
        proof {
            lemma_concat_push(sig.params_view().subrange(0, i as int), p@);
            assert(sig.params_view().subrange(0, i + 1) =~= sig.params_view().subrange(
                0,
                i as int,
            ).push(p@));
            assert(p@.subrange(0, p@.len() as int) =~= p@);
        }
        i += 1;
    }
    assert(sig.params_view().subrange(0, i as int) =~= sig.params_view());
    r.push(')');
    let mut j: usize = 0;
    let ghost mid = r@;
    while j < sig.ret.len()
        invariant
            j <= sig.ret@.len(),
            r@ == mid + sig.ret@.subrange(0, j as int),
        decreases sig.ret@.len() - j,
    {
        r.push(sig.ret[j]);
        j += 1;
        assert(r@ =~= mid + sig.ret@.subrange(0, j as int));
    }
    assert(sig.ret@.subrange(0, j as int) =~= sig.ret@);
    r
}

proof fn lemma_concat_push(ts: Seq<Seq<char>>, t: Seq<char>)
    ensures
        concat(ts.push(t)) == concat(ts) + t,
    decreases ts.len(),
{
    if ts.len() == 0 {
        let one = ts.push(t);
        assert(one.drop_first() =~= Seq::<Seq<char>>::empty());
        assert(concat(one.drop_first()) == Seq::<char>::empty());
        assert(one[0] == t);
        assert(concat(one) == t + Seq::<char>::empty());
        assert(t + Seq::<char>::empty() =~= t);
        assert(concat(ts) == Seq::<char>::empty());
        assert(Seq::<char>::empty() + t =~= t);
    } else {
        lemma_concat_push(ts.drop_first(), t);
        assert(ts.push(t).drop_first() =~= ts.drop_first().push(t));
    }
}

/// A value type fragment: any number of `[`, then a primitive value code or
/// `L<path>;` with a non-empty path.
pub open spec fn is_value_fragment(t: Seq<char>) -> bool
    decreases t.len(),
{
    if t.len() == 0 {
        false
    } else if t[0] == '[' {
        is_value_fragment(t.drop_first())
    } else if t.len() == 1 {
        is_value_code(t[0])
    } else {
        t[0] == 'L' && t.len() >= 3 && t[t.len() - 1] == ';' && forall|k: int|
            1 <= k < t.len() - 1 ==> is_path_char(#[trigger] t[k])
    }
}

/// A return fragment: `V` or a value type fragment.
pub open spec fn is_return_fragment(t: Seq<char>) -> bool {
    t == seq!['V'] || is_value_fragment(t)
}

proof fn lemma_path_end(s: Seq<char>, j: int, e: int)
    requires
        0 <= j < e <= s.len(),
        s[e - 1] == ';',
        forall|k: int| j <= k < e - 1 ==> is_path_char(#[trigger] s[k]),
    ensures
        path_end(s, j) == e,
    decreases e - j,
{
    if j < e - 1 {
        lemma_path_end(s, j + 1, e);
    }
}

proof fn lemma_token_end(s: Seq<char>, i: int, t: Seq<char>)
    requires
        is_value_fragment(t),
        0 <= i,
        i + t.len() <= s.len(),
        s.subrange(i, i + t.len()) == t,
    ensures
        token_end(s, i) == i + t.len(),
        t[0] != ')',
    decreases t.len(),
{
    assert(s[i] == t[0]);
    if t[0] == '[' {
        let u = t.drop_first();
        assert(s.subrange(i + 1, i + 1 + u.len()) =~= u);
        lemma_token_end(s, i + 1, u);
    } else if t.len() == 1 {
    } else {
        assert forall|k: int| i + 1 <= k < i + t.len() - 1 implies is_path_char(#[trigger] s[k]) by {
            assert(s[k] == t[k - i]);
        }
        assert(s[i + t.len() - 1] == t[t.len() - 1]);
        assert(s[i + 1] == t[1]);
        lemma_path_end(s, i + 1, i + t.len());
    }
}

proof fn lemma_parse_params(s: Seq<char>, i: int, ps: Seq<Seq<char>>)
    requires
        forall|k: int| 0 <= k < ps.len() ==> is_value_fragment(#[trigger] ps[k]),
        0 <= i,
        i + concat(ps).len() < s.len(),
        s.subrange(i, i + concat(ps).len()) == concat(ps),
        s[i + concat(ps).len()] == ')',
    ensures
        parse_params(s, i) == Some((ps, i + concat(ps).len())),
    decreases ps.len(),
{
    if ps.len() == 0 {
        assert(ps =~= Seq::<Seq<char>>::empty());
    } else {
        let t = ps[0];
        let rest = ps.drop_first();
        let e = i + t.len();
        assert(concat(ps) == t + concat(rest));
        assert(s.subrange(i, e) =~= t) by {
            assert(s.subrange(i, e) =~= s.subrange(i, i + concat(ps).len()).subrange(0, t.len() as int));
        }
        lemma_token_end(s, i, t);
        assert(s[i] == t[0]);
        assert(s.subrange(e, e + concat(rest).len()) =~= concat(rest)) by {
            assert(s.subrange(e, e + concat(rest).len()) =~= s.subrange(
                i,
                i + concat(ps).len(),
            ).subrange(t.len() as int, concat(ps).len() as int));
        }
        lemma_parse_params(s, e, rest);
        assert(seq![s.subrange(i, e)] + rest =~= ps);
    }
}

/// A descriptor written from value fragments and a return fragment parses
/// back into exactly those fragments, so writing the parsed fragments out
/// again gives the same descriptor.
pub proof fn lemma_fragments_round_trip(params: Seq<Seq<char>>, ret: Seq<char>)
    requires
        forall|k: int| 0 <= k < params.len() ==> is_value_fragment(#[trigger] params[k]),
        is_return_fragment(ret),
    ensures
        parse_spec(serialize_spec(params, ret)) == Some((params, ret)),
{
    let s = serialize_spec(params, ret);
    let n = concat(params).len() as int;
    assert(s.subrange(1, 1 + n) =~= concat(params));
    assert(s[1 + n] == ')');
    lemma_parse_params(s, 1, params);
    let k = 1 + n;
    assert(s.subrange(k + 1, s.len() as int) =~= ret);
    if ret != seq!['V'] {
        lemma_token_end(s, k + 1, ret);
    } else {
        assert(s[k + 1] == ret[0]);
    }
}

} // verus!
