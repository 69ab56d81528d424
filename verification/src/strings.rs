//! Character-level string utilities: whitespace tokenization, splitting on a
//! separator, trimming, template filling and decimal rendering. Everything a
//! contract in this crate says about text is said over `Seq<char>` views
//! through the spec functions of this module.

use vstd::prelude::*;

verus! {

/// The characters `str::split_whitespace` treats as separators
/// (the Unicode `White_Space` property).
pub open spec fn is_ws_char(c: char) -> bool {
    c == ' ' || c == '\t' || c == '\n' || c == '\u{0b}' || c == '\u{0c}' || c == '\r'
        || c == '\u{85}' || c == '\u{a0}' || c == '\u{1680}' || c == '\u{2000}'
        || c == '\u{2001}' || c == '\u{2002}' || c == '\u{2003}' || c == '\u{2004}'
        || c == '\u{2005}' || c == '\u{2006}' || c == '\u{2007}' || c == '\u{2008}'
        || c == '\u{2009}' || c == '\u{200a}' || c == '\u{2028}' || c == '\u{2029}'
        || c == '\u{202f}' || c == '\u{205f}' || c == '\u{3000}'
}

pub fn is_ws(c: char) -> (r: bool)
    ensures
        r == is_ws_char(c),
{
    c == ' ' || c == '\t' || c == '\n' || c == '\u{0b}' || c == '\u{0c}' || c == '\r'
        || c == '\u{85}' || c == '\u{a0}' || c == '\u{1680}' || c == '\u{2000}'
        || c == '\u{2001}' || c == '\u{2002}' || c == '\u{2003}' || c == '\u{2004}'
        || c == '\u{2005}' || c == '\u{2006}' || c == '\u{2007}' || c == '\u{2008}'
        || c == '\u{2009}' || c == '\u{200a}' || c == '\u{2028}' || c == '\u{2029}'
        || c == '\u{202f}' || c == '\u{205f}' || c == '\u{3000}'
}

/// The tokens of `s` from position `i` on, given a partial token `cur` and the
/// tokens `acc` found so far; `split_ws_spec` instantiates it from the start.
pub open spec fn ws_tokens_from(s: Seq<char>, i: int, cur: Seq<char>, acc: Seq<Seq<char>>) -> Seq<
    Seq<char>,
>
    decreases s.len() - i,
{
    if i < 0 || i >= s.len() {
        if cur.len() > 0 {
            acc.push(cur)
        } else {
            acc
        }
    } else if is_ws_char(s[i]) {
        if cur.len() > 0 {
            ws_tokens_from(s, i + 1, Seq::empty(), acc.push(cur))
        } else {
            ws_tokens_from(s, i + 1, cur, acc)
        }
    } else {
        ws_tokens_from(s, i + 1, cur.push(s[i]), acc)
    }
}

/// The whitespace-separated tokens of `s`, as `str::split_whitespace` yields
/// them: maximal runs of non-whitespace characters, in order.
pub open spec fn split_ws_spec(s: Seq<char>) -> Seq<Seq<char>> {
    ws_tokens_from(s, 0, Seq::empty(), Seq::empty())
}

/// Splits on Unicode whitespace, dropping the separators.
pub fn split_ws(s: &str) -> (r: Vec<String>)
    ensures
        r.deep_view() == split_ws_spec(s@),
{
    let n = s.unicode_len();
    let mut acc: Vec<String> = Vec::new();
    let mut i: usize = 0;
    let mut start: usize = 0;
    let mut in_tok: bool = false;
    proof {
        assert(acc.deep_view() =~= Seq::<Seq<char>>::empty());
    }
    while i < n
        invariant
            n == s@.len(),
            i <= n,
            in_tok ==> start < i,
            split_ws_spec(s@) == ws_tokens_from(
                s@,
                i as int,
                if in_tok {
                    s@.subrange(start as int, i as int)
                } else {
                    Seq::empty()
                },
                acc.deep_view(),
            ),
        decreases n - i,
    {
        let c = s.get_char(i);
        let ghost cur = if in_tok {
            s@.subrange(start as int, i as int)
        } else {
            Seq::<char>::empty()
        };
        let ghost pre_acc = acc.deep_view();
        if is_ws(c) {
            if in_tok {
                let tok = s.substring_char(start, i).to_owned();
                proof {
                    assert(tok@ == cur);
                    assert(cur.len() > 0);
                }
                acc.push(tok);
                proof {
                    assert(acc.deep_view() =~= pre_acc.push(cur));
                    assert(ws_tokens_from(s@, i as int, cur, pre_acc) == ws_tokens_from(
                        s@,
                        i as int + 1,
                        Seq::empty(),
                        pre_acc.push(cur),
                    ));
                }
                in_tok = false;
            } else {
                proof {
                    assert(ws_tokens_from(s@, i as int, cur, pre_acc) == ws_tokens_from(
                        s@,
                        i as int + 1,
                        cur,
                        pre_acc,
                    ));
                }
            }
        } else {
            if !in_tok {
                start = i;
                in_tok = true;
            }
            proof {
                assert(s@.subrange(start as int, i as int + 1) =~= cur.push(s@[i as int]));
                assert(ws_tokens_from(s@, i as int, cur, pre_acc) == ws_tokens_from(
                    s@,
                    i as int + 1,
                    cur.push(s@[i as int]),
                    pre_acc,
                ));
            }
        }
        i += 1;
    }
    if in_tok {
        let tok = s.substring_char(start, n).to_owned();
        let ghost old_acc = acc.deep_view();
        acc.push(tok);
        proof {
            assert(acc.deep_view() =~= old_acc.push(s@.subrange(start as int, n as int)));
        }
    }
    acc
}

/// Whether `p` is a prefix of `s`.
pub open spec fn starts_with_spec(s: Seq<char>, p: Seq<char>) -> bool {
    p.len() <= s.len() && s.subrange(0, p.len() as int) == p
}

pub fn str_starts_with(s: &str, p: &str) -> (r: bool)
    ensures
        r == starts_with_spec(s@, p@),
{
    let sl = s.unicode_len();
    let pl = p.unicode_len();
    if pl > sl {
        return false;
    }
    let mut i: usize = 0;
    while i < pl
        invariant
            sl == s@.len(),
            pl == p@.len(),
            pl <= sl,
            i <= pl,
            forall|j: int| 0 <= j < i ==> s@[j] == p@[j],
        decreases pl - i,
    {
        if s.get_char(i) != p.get_char(i) {
            proof {
                assert(s@.subrange(0, p@.len() as int)[i as int] == s@[i as int]);
            }
            return false;
        }
        i += 1;
    }
    proof {
        assert(s@.subrange(0, p@.len() as int) =~= p@);
    }
    true
}

/// Whether the views of two string slices are equal.
pub fn eq_str(a: &str, b: &str) -> (r: bool)
    ensures
        r == (a@ == b@),
{
    let x = a.to_owned();
    let y = b.to_owned();
    x == y
}

pub fn concat2(a: &str, b: &str) -> (r: String)
    ensures
        r@ == a@ + b@,
{
    let mut r = a.to_owned();
    r.append(b);
    r
}

pub fn concat3(a: &str, b: &str, c: &str) -> (r: String)
    ensures
        r@ == a@ + b@ + c@,
{
    let mut r = a.to_owned();
    r.append(b);
    r.append(c);
    r
}

/// The fields of `s` from position `i` on when split at `sep`; empty fields
/// are kept. `split_char_spec` instantiates it from the start.
pub open spec fn fields_from(
    s: Seq<char>,
    sep: char,
    i: int,
    cur: Seq<char>,
    acc: Seq<Seq<char>>,
) -> Seq<Seq<char>>
    decreases s.len() - i,
{
    if i < 0 || i >= s.len() {
        acc.push(cur)
    } else if s[i] == sep {
        fields_from(s, sep, i + 1, Seq::empty(), acc.push(cur))
    } else {
        fields_from(s, sep, i + 1, cur.push(s[i]), acc)
    }
}

/// The fields of `s` split at every `sep`, as `str::split` yields them;
/// an empty input gives one empty field.
pub open spec fn split_char_spec(s: Seq<char>, sep: char) -> Seq<Seq<char>> {
    fields_from(s, sep, 0, Seq::empty(), Seq::empty())
}

/// Splits at every occurrence of `sep`, keeping empty fields.
pub fn split_char(s: &str, sep: char) -> (r: Vec<String>)
    ensures
        r.deep_view() == split_char_spec(s@, sep),
{
    let n = s.unicode_len();
    let mut acc: Vec<String> = Vec::new();
    let mut start: usize = 0;
    let mut i: usize = 0;
    proof {
        assert(acc.deep_view() =~= Seq::<Seq<char>>::empty());
        assert(s@.subrange(0, 0) =~= Seq::<char>::empty());
    }
    while i < n
        invariant
            n == s@.len(),
            start <= i <= n,
            split_char_spec(s@, sep) == fields_from(
                s@,
                sep,
                i as int,
                s@.subrange(start as int, i as int),
                acc.deep_view(),
            ),
        decreases n - i,
    {
        let ghost cur = s@.subrange(start as int, i as int);
        let ghost pre_acc = acc.deep_view();
        if s.get_char(i) == sep {
            let tok = s.substring_char(start, i).to_owned();
            acc.push(tok);
            start = i + 1;
            proof {
                assert(acc.deep_view() =~= pre_acc.push(cur));
                assert(s@.subrange(start as int, i as int + 1) =~= Seq::<char>::empty());
                assert(fields_from(s@, sep, i as int, cur, pre_acc) == fields_from(
                    s@,
                    sep,
                    i as int + 1,
                    Seq::empty(),
                    pre_acc.push(cur),
                ));
            }
        } else {
            proof {
                assert(s@.subrange(start as int, i as int + 1) =~= cur.push(s@[i as int]));
                assert(fields_from(s@, sep, i as int, cur, pre_acc) == fields_from(
                    s@,
                    sep,
                    i as int + 1,
                    cur.push(s@[i as int]),
                    pre_acc,
                ));
            }
        }
        i += 1;
    }
    let tok = s.substring_char(start, n).to_owned();
    let ghost pre_acc = acc.deep_view();
    acc.push(tok);
    proof {
        assert(acc.deep_view() =~= pre_acc.push(s@.subrange(start as int, n as int)));
    }
    acc
}

/// `s` with every leading `c` removed.
pub open spec fn trim_start_spec(s: Seq<char>, c: char) -> Seq<char>
    decreases s.len(),
{
    if s.len() > 0 && s[0] == c {
        trim_start_spec(s.drop_first(), c)
    } else {
        s
    }
}

/// `s` with every trailing `c` removed.
pub open spec fn trim_end_spec(s: Seq<char>, c: char) -> Seq<char>
    decreases s.len(),
{
    if s.len() > 0 && s.last() == c {
        trim_end_spec(s.drop_last(), c)
    } else {
        s
    }
}

/// `s` with every leading and trailing `c` removed, as `str::trim_matches`
/// leaves it.
pub open spec fn trim_spec(s: Seq<char>, c: char) -> Seq<char> {
    trim_end_spec(trim_start_spec(s, c), c)
}

proof fn lemma_trim_start_at(s: Seq<char>, c: char, k: int)
    requires
        0 <= k <= s.len(),
        forall|j: int| 0 <= j < k ==> s[j] == c,
        k < s.len() ==> s[k] != c,
    ensures
        trim_start_spec(s, c) == s.subrange(k, s.len() as int),
    decreases k,
{
    if k == 0 {
        assert(s.subrange(0, s.len() as int) =~= s);
    } else {
        lemma_trim_start_at(s.drop_first(), c, k - 1);
        assert(s.drop_first().subrange(k - 1, s.len() - 1) =~= s.subrange(k, s.len() as int));
    }
}

proof fn lemma_trim_end_at(s: Seq<char>, c: char, k: int)
    requires
        0 <= k <= s.len(),
        forall|j: int| k <= j < s.len() ==> s[j] == c,
        k > 0 ==> s[k - 1] != c,
    ensures
        trim_end_spec(s, c) == s.subrange(0, k),
    decreases s.len() - k,
{
    if k == s.len() {
        assert(s.subrange(0, k) =~= s);
    } else {
        lemma_trim_end_at(s.drop_last(), c, k);
        assert(s.drop_last().subrange(0, k) =~= s.subrange(0, k));
    }
}

/// Removes every leading and trailing occurrence of `c`.
pub fn trim_char(s: &str, c: char) -> (r: String)
    ensures
        r@ == trim_spec(s@, c),
{
    let n = s.unicode_len();
    let mut a: usize = 0;
    while a < n && s.get_char(a) == c
        invariant
            n == s@.len(),
            a <= n,
            forall|j: int| 0 <= j < a ==> s@[j] == c,
        decreases n - a,
    {
        a += 1;
    }
    if a == n {
        proof {
            lemma_trim_start_at(s@, c, a as int);
            assert(s@.subrange(n as int, n as int) =~= Seq::<char>::empty());
        }
        return String::new();
    }
    let mut b: usize = n;
    while b > a && s.get_char(b - 1) == c
        invariant
            n == s@.len(),
            a <= b <= n,
            forall|j: int| b <= j < n ==> s@[j] == c,
        decreases b,
    {
        b -= 1;
    }
    proof {
        assert(s@[a as int] != c);
        assert(b > a);
        lemma_trim_start_at(s@, c, a as int);
        let t = s@.subrange(a as int, n as int);
        lemma_trim_end_at(t, c, b - a);
        assert(t.subrange(0, b - a) =~= s@.subrange(a as int, b as int));
    }
    s.substring_char(a, b).to_owned()
}

/// `t` with every `{}` placeholder replaced by `name`, scanning left to
/// right, as `str::replace` does.
pub open spec fn fill_spec(t: Seq<char>, name: Seq<char>) -> Seq<char>
    decreases t.len(),
{
    if t.len() >= 2 && t[0] == '{' && t[1] == '}' {
        name + fill_spec(t.skip(2), name)
    } else if t.len() > 0 {
        seq![t[0]] + fill_spec(t.skip(1), name)
    } else {
        Seq::empty()
    }
}

pub fn fill_template(t: &str, name: &str) -> (r: String)
    ensures
        r@ == fill_spec(t@, name@),
{
    let n = t.unicode_len();
    let mut r = String::new();
    let mut i: usize = 0;
    proof {
        assert(t@.skip(0) =~= t@);
        assert(r@ + fill_spec(t@, name@) =~= fill_spec(t@, name@));
    }
    while i < n
        invariant
            n == t@.len(),
            i <= n,
            fill_spec(t@, name@) == r@ + fill_spec(t@.skip(i as int), name@),
        decreases n - i,
    {
        let ghost rest = t@.skip(i as int);
        let ghost pre_r = r@;
        if i + 1 < n && t.get_char(i) == '{' && t.get_char(i + 1) == '}' {
            r.append(name);
            proof {
                assert(rest[0] == '{' && rest[1] == '}');
                assert(rest.skip(2) =~= t@.skip(i as int + 2));
                assert((pre_r + name@) + fill_spec(t@.skip(i as int + 2), name@) =~= pre_r + (
                name@ + fill_spec(rest.skip(2), name@)));
            }
            i += 2;
        } else {
            let piece = t.substring_char(i, i + 1);
            r.append(piece);
            proof {
                assert(piece@ =~= seq![rest[0]]);
                assert(rest.skip(1) =~= t@.skip(i as int + 1));
                if rest.len() >= 2 && rest[0] == '{' && rest[1] == '}' {
                    assert(rest[0] == t@[i as int]);
                    assert(rest[1] == t@[i as int + 1]);
                }
                assert((pre_r + piece@) + fill_spec(t@.skip(i as int + 1), name@) =~= pre_r + (
                seq![rest[0]] + fill_spec(rest.skip(1), name@)));
            }
            i += 1;
        }
    }
    proof {
        assert(t@.skip(n as int) =~= Seq::<char>::empty());
        assert(r@ + fill_spec(Seq::empty(), name@) =~= r@);
    }
    r
}

/// The joining of `v` with `sep` between consecutive elements, as
/// `[String]::join` builds it.
pub open spec fn join_spec(v: Seq<Seq<char>>, sep: Seq<char>) -> Seq<char>
    decreases v.len(),
{
    if v.len() == 0 {
        Seq::empty()
    } else if v.len() == 1 {
        v[0]
    } else {
        join_spec(v.drop_last(), sep) + sep + v.last()
    }
}

pub fn join_strings(v: &Vec<String>, sep: &str) -> (r: String)
    ensures
        r@ == join_spec(v.deep_view(), sep@),
{
    let mut r = String::new();
    let mut i: usize = 0;
    while i < v.len()
        invariant
            i <= v.len(),
            r@ == join_spec(v.deep_view().take(i as int), sep@),
        decreases v.len() - i,
    {
        let ghost pre_r = r@;
        if i > 0 {
            r.append(sep);
        }
        r.append(v[i].as_str());
        proof {
            let dv = v.deep_view();
            assert(dv[i as int] == v[i as int].deep_view());
            assert(dv.take(i as int + 1).drop_last() =~= dv.take(i as int));
            assert(dv.take(i as int + 1).last() == dv[i as int]);
            if i == 0 {
                assert(r@ =~= dv.take(1)[0]);
            } else {
                assert(r@ =~= join_spec(dv.take(i as int), sep@) + sep@ + dv[i as int]);
            }
        }
        i += 1;
    }
    proof {
        assert(v.deep_view().take(v.len() as int) =~= v.deep_view());
    }
    r
}

/// The ASCII-lowercased counterpart of `c`; other characters are unchanged.
pub open spec fn ascii_lower_char(c: char) -> char {
    if c == 'A' { 'a' } else if c == 'B' { 'b' } else if c == 'C' { 'c' } else if c == 'D' { 'd' }
    else if c == 'E' { 'e' } else if c == 'F' { 'f' } else if c == 'G' { 'g' }
    else if c == 'H' { 'h' } else if c == 'I' { 'i' } else if c == 'J' { 'j' }
    else if c == 'K' { 'k' } else if c == 'L' { 'l' } else if c == 'M' { 'm' }
    else if c == 'N' { 'n' } else if c == 'O' { 'o' } else if c == 'P' { 'p' }
    else if c == 'Q' { 'q' } else if c == 'R' { 'r' } else if c == 'S' { 's' }
    else if c == 'T' { 't' } else if c == 'U' { 'u' } else if c == 'V' { 'v' }
    else if c == 'W' { 'w' } else if c == 'X' { 'x' } else if c == 'Y' { 'y' }
    else if c == 'Z' { 'z' } else { c }
}

/// The single-character string that ASCII-lowercases `c`, or `None` when `c`
/// is not an ASCII capital.
fn lower_head(c: char) -> (r: Option<&'static str>)
    ensures
        match r {
            Some(h) => h@ == seq![ascii_lower_char(c)] && ascii_lower_char(c) != c,
            None => ascii_lower_char(c) == c,
        },
{
    match c {
        'A' => { proof { reveal_strlit("a"); assert("a"@ =~= seq!['a']); } Some("a") },
        'B' => { proof { reveal_strlit("b"); assert("b"@ =~= seq!['b']); } Some("b") },
        'C' => { proof { reveal_strlit("c"); assert("c"@ =~= seq!['c']); } Some("c") },
        'D' => { proof { reveal_strlit("d"); assert("d"@ =~= seq!['d']); } Some("d") },
        'E' => { proof { reveal_strlit("e"); assert("e"@ =~= seq!['e']); } Some("e") },
        'F' => { proof { reveal_strlit("f"); assert("f"@ =~= seq!['f']); } Some("f") },
        'G' => { proof { reveal_strlit("g"); assert("g"@ =~= seq!['g']); } Some("g") },
        'H' => { proof { reveal_strlit("h"); assert("h"@ =~= seq!['h']); } Some("h") },
        'I' => { proof { reveal_strlit("i"); assert("i"@ =~= seq!['i']); } Some("i") },
        'J' => { proof { reveal_strlit("j"); assert("j"@ =~= seq!['j']); } Some("j") },
        'K' => { proof { reveal_strlit("k"); assert("k"@ =~= seq!['k']); } Some("k") },
        'L' => { proof { reveal_strlit("l"); assert("l"@ =~= seq!['l']); } Some("l") },
        'M' => { proof { reveal_strlit("m"); assert("m"@ =~= seq!['m']); } Some("m") },
        'N' => { proof { reveal_strlit("n"); assert("n"@ =~= seq!['n']); } Some("n") },
        'O' => { proof { reveal_strlit("o"); assert("o"@ =~= seq!['o']); } Some("o") },
        'P' => { proof { reveal_strlit("p"); assert("p"@ =~= seq!['p']); } Some("p") },
        'Q' => { proof { reveal_strlit("q"); assert("q"@ =~= seq!['q']); } Some("q") },
        'R' => { proof { reveal_strlit("r"); assert("r"@ =~= seq!['r']); } Some("r") },
        'S' => { proof { reveal_strlit("s"); assert("s"@ =~= seq!['s']); } Some("s") },
        'T' => { proof { reveal_strlit("t"); assert("t"@ =~= seq!['t']); } Some("t") },
        'U' => { proof { reveal_strlit("u"); assert("u"@ =~= seq!['u']); } Some("u") },
        'V' => { proof { reveal_strlit("v"); assert("v"@ =~= seq!['v']); } Some("v") },
        'W' => { proof { reveal_strlit("w"); assert("w"@ =~= seq!['w']); } Some("w") },
        'X' => { proof { reveal_strlit("x"); assert("x"@ =~= seq!['x']); } Some("x") },
        'Y' => { proof { reveal_strlit("y"); assert("y"@ =~= seq!['y']); } Some("y") },
        'Z' => { proof { reveal_strlit("z"); assert("z"@ =~= seq!['z']); } Some("z") },
        _ => None,
    }
}

/// `s` with its first character ASCII-lowercased.
pub open spec fn head_lower_spec(s: Seq<char>) -> Seq<char> {
    if s.len() == 0 {
        s
    } else {
        seq![ascii_lower_char(s[0])] + s.skip(1)
    }
}

/// Lowercases the first character of `text`, leaving the rest as it is.
pub fn make_head_lower(text: &str) -> (r: String)
    ensures
        r@ == head_lower_spec(text@),
{
    let n = text.unicode_len();
    if n == 0 {
        return String::new();
    }
    let c = text.get_char(0);
    match lower_head(c) {
        Some(h) => {
            let mut r = h.to_owned();
            let rest = text.substring_char(1, n);
            r.append(rest);
            proof {
                assert(rest@ =~= text@.skip(1));
            }
            r
        },
        None => {
            proof {
                assert(text@ =~= seq![text@[0]] + text@.skip(1));
            }
            text.to_owned()
        },
    }
}

/// The digit character of `d`, for `d` under ten.
pub open spec fn digit_char(d: nat) -> char {
    if d == 0 { '0' } else if d == 1 { '1' } else if d == 2 { '2' } else if d == 3 { '3' }
    else if d == 4 { '4' } else if d == 5 { '5' } else if d == 6 { '6' } else if d == 7 { '7' }
    else if d == 8 { '8' } else { '9' }
}

/// The decimal digits of `n`, most significant first, with no leading zero
/// except for `n == 0` itself.
pub open spec fn dec_str(n: nat) -> Seq<char>
    decreases n,
{
    if n < 10 {
        seq![digit_char(n)]
    } else {
        dec_str(n / 10).push(digit_char(n % 10))
    }
}

fn digit_literal(d: u64) -> (r: &'static str)
    requires
        d < 10,
    ensures
        r@ == seq![digit_char(d as nat)],
{
    if d == 0 { proof { reveal_strlit("0"); assert("0"@ =~= seq!['0']); } "0" }
    else if d == 1 { proof { reveal_strlit("1"); assert("1"@ =~= seq!['1']); } "1" }
    else if d == 2 { proof { reveal_strlit("2"); assert("2"@ =~= seq!['2']); } "2" }
    else if d == 3 { proof { reveal_strlit("3"); assert("3"@ =~= seq!['3']); } "3" }
    else if d == 4 { proof { reveal_strlit("4"); assert("4"@ =~= seq!['4']); } "4" }
    else if d == 5 { proof { reveal_strlit("5"); assert("5"@ =~= seq!['5']); } "5" }
    else if d == 6 { proof { reveal_strlit("6"); assert("6"@ =~= seq!['6']); } "6" }
    else if d == 7 { proof { reveal_strlit("7"); assert("7"@ =~= seq!['7']); } "7" }
    else if d == 8 { proof { reveal_strlit("8"); assert("8"@ =~= seq!['8']); } "8" }
    else { proof { reveal_strlit("9"); assert("9"@ =~= seq!['9']); } "9" }
}

/// Renders `n` in decimal.
pub fn u64_dec(n: u64) -> (r: String)
    ensures
        r@ == dec_str(n as nat),
    decreases n,
{
    if n < 10 {
        digit_literal(n).to_owned()
    } else {
        let mut r = u64_dec(n / 10);
        r.append(digit_literal(n % 10));
        proof {
            assert(r@ =~= dec_str((n / 10) as nat).push(digit_char((n % 10) as nat)));
        }
        r
    }
}

/// The decimal digits of `n` with a leading minus sign when negative.
pub open spec fn int_dec_str(n: int) -> Seq<char> {
    if n < 0 {
        seq!['-'] + dec_str((-n) as nat)
    } else {
        dec_str(n as nat)
    }
}

/// Renders `n` in decimal, signed.
pub fn i32_dec(n: i32) -> (r: String)
    ensures
        r@ == int_dec_str(n as int),
{
    if n < 0 {
        let m: u64 = (-(n as i64)) as u64;
        proof {
            reveal_strlit("-");
            assert("-"@ =~= seq!['-']);
        }
        let mut r = "-".to_owned();
        r.append(u64_dec(m).as_str());
        r
    } else {
        u64_dec(n as u64)
    }
}

/// The last `width` decimal digits of `n`, zero-padded on the left.
pub open spec fn padded_dec(n: nat, width: nat) -> Seq<char>
    decreases width,
{
    if width == 0 {
        Seq::empty()
    } else {
        padded_dec(n / 10, (width - 1) as nat).push(digit_char(n % 10))
    }
}

/// Renders the last `width` decimal digits of `n`, zero-padded on the left.
pub fn padded_u64(n: u64, width: u64) -> (r: String)
    ensures
        r@ == padded_dec(n as nat, width as nat),
    decreases width,
{
    if width == 0 {
        let r = String::new();
        proof {
            assert(r@ =~= padded_dec(n as nat, 0));
        }
        r
    } else {
        let mut r = padded_u64(n / 10, width - 1);
        r.append(digit_literal(n % 10));
        proof {
            assert(r@ =~= padded_dec((n / 10) as nat, (width - 1) as nat).push(
                digit_char((n % 10) as nat),
            ));
        }
        r
    }
}

/// An element-by-element copy of a vector of strings.
pub fn clone_strings(v: &Vec<String>) -> (r: Vec<String>)
    ensures
        r.deep_view() == v.deep_view(),
        r@.len() == v@.len(),
{
    let mut r: Vec<String> = Vec::new();
    let mut i: usize = 0;
    while i < v.len()
        invariant
            i <= v.len(),
            r@.len() == i,
            forall|j: int| 0 <= j < i ==> r@[j] == v@[j],
        decreases v.len() - i,
    {
        r.push(v[i].clone());
        i += 1;
    }
    proof {
        assert(r.deep_view() =~= v.deep_view());
    }
    r
}

/// The mention token that addresses a user: `<@` + id + `>`.
pub open spec fn mention_spec(id: Seq<char>) -> Seq<char> {
    seq!['<', '@'] + id + seq!['>']
}

pub fn make_mention(id: &str) -> (r: String)
    ensures
        r@ == mention_spec(id@),
{
    proof {
        reveal_strlit("<@");
        reveal_strlit(">");
        assert("<@"@ =~= seq!['<', '@']);
        assert(">"@ =~= seq!['>']);
    }
    concat3("<@", id, ">")
}

} // verus!
