//! Character-level text utilities with exact specifications.

use vstd::prelude::*;

verus! {

/// Appends one character to a `String` (`String::push`).
#[verifier::external_body]
pub(crate) fn push_char(s: &mut String, c: char)
    ensures
        final(s)@ == old(s)@.push(c),
{
    s.push(c);
}

/// Appends a string slice to a `String` (`String::push_str`).
#[verifier::external_body]
pub(crate) fn push_str(s: &mut String, t: &str)
    ensures
        final(s)@ == old(s)@ + t@,
{
    s.push_str(t);
}

/// The characters of `s`, in order.
pub fn chars_of(s: &str) -> (v: Vec<char>)
    ensures
        v@ == s@,
{
    let mut v: Vec<char> = Vec::new();
    for c in it: s.chars()
        invariant
            v@ == it.seq().take(it.index() as int),
    {
        v.push(c);
    }
    v
}

/// A `String` holding the characters `v[from..to]`.
pub fn string_of_range(v: &Vec<char>, from: usize, to: usize) -> (s: String)
    requires
        from <= to <= v.len(),
    ensures
        s@ == v@.subrange(from as int, to as int),
{
    let mut s = String::new();
    let mut i = from;
    while i < to
        invariant
            from <= i <= to <= v.len(),
            s@ == v@.subrange(from as int, i as int),
        decreases to - i,
    {
        push_char(&mut s, v[i]);
        i = i + 1;
    }
    s
}

/// A `String` holding the characters of `v`.
pub fn string_of(v: &Vec<char>) -> (s: String)
    ensures
        s@ == v@,
{
    let s = string_of_range(v, 0, v.len());
    assert(v@.subrange(0, v@.len() as int) =~= v@);
    s
}

/// A `String` with the characters of `s`.
pub fn to_owned_string(s: &str) -> (r: String)
    ensures
        r@ == s@,
{
    let v = chars_of(s);
    string_of(&v)
}

/// The characters that Unicode gives the `White_Space` property, which
/// `char::is_whitespace` and `str::trim` go by.
pub open spec fn is_white_space(c: char) -> bool {
    let n = c as u32;
    ||| (0x09 <= n && n <= 0x0d)
    ||| n == 0x20
    ||| n == 0x85
    ||| n == 0xa0
    ||| n == 0x1680
    ||| (0x2000 <= n && n <= 0x200a)
    ||| n == 0x2028
    ||| n == 0x2029
    ||| n == 0x202f
    ||| n == 0x205f
    ||| n == 0x3000
}

/// Executable form of [`is_white_space`].
pub fn white_space(c: char) -> (b: bool)
    ensures
        b == is_white_space(c),
{
    let n = c as u32;
    (0x09 <= n && n <= 0x0d) || n == 0x20 || n == 0x85 || n == 0xa0 || n == 0x1680 || (0x2000
        <= n && n <= 0x200a) || n == 0x2028 || n == 0x2029 || n == 0x202f || n == 0x205f || n
        == 0x3000
}

/// `s` without its leading white space.
pub open spec fn trim_start(s: Seq<char>) -> Seq<char>
    decreases s.len(),
{
    if s.len() > 0 && is_white_space(s[0]) {
        trim_start(s.drop_first())
    } else {
        s
    }
}

/// `s` without its trailing white space.
pub open spec fn trim_end(s: Seq<char>) -> Seq<char>
    decreases s.len(),
{
    if s.len() > 0 && is_white_space(s.last()) {
        trim_end(s.drop_last())
    } else {
        s
    }
}

/// `s` without leading and trailing white space, as `str::trim` gives it.
pub open spec fn trim(s: Seq<char>) -> Seq<char> {
    trim_end(trim_start(s))
}

proof fn lemma_trim_start_skip(s: Seq<char>, i: int)
    requires
        0 <= i <= s.len(),
        forall|j: int| 0 <= j < i ==> is_white_space(#[trigger] s[j]),
    ensures
        trim_start(s) == trim_start(s.skip(i)),
    decreases i,
{
    if i > 0 {
        assert(s.skip(1) =~= s.drop_first());
        lemma_trim_start_skip(s.drop_first(), i - 1);
        assert(s.drop_first().skip(i - 1) =~= s.skip(i));
    } else {
        assert(s.skip(0) =~= s);
    }
}

proof fn lemma_trim_end_take(s: Seq<char>, i: int)
    requires
        0 <= i <= s.len(),
        forall|j: int| i <= j < s.len() ==> is_white_space(#[trigger] s[j]),
    ensures
        trim_end(s) == trim_end(s.take(i)),
    decreases s.len() - i,
{
    if i < s.len() {
        lemma_trim_end_take(s.drop_last(), i);
        assert(s.drop_last().take(i) =~= s.take(i));
    } else {
        assert(s.take(i) =~= s);
    }
}

/// The bounds `[from, to)` of `trim(v)` inside `v`.
pub fn trim_bounds(v: &Vec<char>) -> (r: (usize, usize))
    ensures
        r.0 <= r.1 <= v.len(),
        trim(v@) == v@.subrange(r.0 as int, r.1 as int),
{
    let mut from: usize = 0;
    while from < v.len() && white_space(v[from])
        invariant
            from <= v.len(),
            forall|j: int| 0 <= j < from ==> is_white_space(#[trigger] v@[j]),
        decreases v.len() - from,
    {
        from = from + 1;
    }
    proof {
        lemma_trim_start_skip(v@, from as int);
    }
    let ghost rest = v@.skip(from as int);
    assert(from == v.len() || !is_white_space(rest[0]));
    assert(trim_start(v@) == rest);
    let mut to: usize = v.len();
    while to > from && white_space(v[to - 1])
        invariant
            from <= to <= v.len(),
            forall|j: int| to <= j < v.len() ==> is_white_space(#[trigger] v@[j]),
        decreases to,
    {
        to = to - 1;
    }
    proof {
        let t = (to - from) as int;
        assert forall|j: int| t <= j < rest.len() implies is_white_space(#[trigger] rest[j]) by {
            assert(rest[j] == v@[j + from]);
        }
        lemma_trim_end_take(rest, t);
        let r2 = rest.take(t);
        assert(r2 =~= v@.subrange(from as int, to as int));
        if t > 0 {
            assert(r2.last() == v@[to - 1]);
        }
        assert(trim_end(r2) == r2);
    }
    (from, to)
}

/// `str::trim`: `s` without leading and trailing white space.
pub fn trim_string(s: &str) -> (r: String)
    ensures
        r@ == trim(s@),
{
    let v = chars_of(s);
    let (from, to) = trim_bounds(&v);
    string_of_range(&v, from, to)
}

/// Whether two string slices hold the same characters.
pub fn str_eq(a: &str, b: &str) -> (r: bool)
    ensures
        r == (a@ == b@),
{
    let av = chars_of(a);
    let bv = chars_of(b);
    if av.len() != bv.len() {
        return false;
    }
    let mut i: usize = 0;
    while i < av.len()
        invariant
            av@ == a@,
            bv@ == b@,
            av.len() == bv.len(),
            i <= av.len(),
            forall|k: int| 0 <= k < i ==> av@[k] == bv@[k],
        decreases av.len() - i,
    {
        if av[i] != bv[i] {
            assert(a@[i as int] != b@[i as int]);
            return false;
        }
        i = i + 1;
    }
    assert(av@ =~= bv@);
    true
}

/// `t` occurs in `s` at position `i`.
pub open spec fn occurs_at(s: Seq<char>, t: Seq<char>, i: int) -> bool {
    0 <= i && i + t.len() <= s.len() && s.subrange(i, i + t.len()) == t
}

/// `t` occurs somewhere in `s` (`str::contains` with a string pattern).
pub open spec fn contains(s: Seq<char>, t: Seq<char>) -> bool {
    exists|i: int| occurs_at(s, t, i)
}

/// `s` begins with `t`.
pub open spec fn starts_with(s: Seq<char>, t: Seq<char>) -> bool {
    t.len() <= s.len() && s.take(t.len() as int) == t
}

pub(crate) fn occurs_at_exec(s: &Vec<char>, t: &Vec<char>, i: usize) -> (b: bool)
    requires
        i + t.len() <= s.len(),
    ensures
        b == occurs_at(s@, t@, i as int),
{
    let mut j: usize = 0;
    while j < t.len()
        invariant
            i + t.len() <= s.len(),
            j <= t.len(),
            forall|k: int| 0 <= k < j ==> s@[i + k] == t@[k],
        decreases t.len() - j,
    {
        if s[i + j] != t[j] {
            assert(s@.subrange(i as int, i + t.len())[j as int] != t@[j as int]);
            return false;
        }
        j = j + 1;
    }
    assert(s@.subrange(i as int, i + t.len()) =~= t@);
    true
}

/// Whether `t` occurs in `s`.
pub fn contains_chars(s: &Vec<char>, t: &Vec<char>) -> (b: bool)
    ensures
        b == contains(s@, t@),
{
    if t.len() > s.len() {
        return false;
    }
    let mut i: usize = 0;
    let last = s.len() - t.len();
    while i <= last
        invariant
            t.len() <= s.len(),
            last == s.len() - t.len(),
            i <= last + 1,
            forall|k: int| 0 <= k < i ==> !occurs_at(s@, t@, k),
        decreases last + 1 - i,
    {
        if occurs_at_exec(s, t, i) {
            return true;
        }
        if i == last {
            return false;
        }
        i = i + 1;
    }
    false
}

/// `str::contains` with a string pattern.
pub fn str_contains(s: &str, t: &str) -> (b: bool)
    ensures
        b == contains(s@, t@),
{
    let sv = chars_of(s);
    let tv = chars_of(t);
    contains_chars(&sv, &tv)
}

/// `str::starts_with` with a string pattern.
pub fn str_starts_with(s: &str, t: &str) -> (b: bool)
    ensures
        b == starts_with(s@, t@),
{
    let sv = chars_of(s);
    let tv = chars_of(t);
    if tv.len() > sv.len() {
        return false;
    }
    let r = occurs_at_exec(&sv, &tv, 0);
    assert(sv@.subrange(0, tv@.len() as int) =~= sv@.take(tv@.len() as int));
    r
}


/// The decimal digit character for `d < 10`.
pub open spec fn digit_char(d: nat) -> char {
    ((d + 48) as u32) as char
}

/// The decimal representation of `n`, without sign or leading zeros.
pub open spec fn decimal(n: nat) -> Seq<char>
    decreases n,
{
    if n < 10 {
        seq![digit_char(n)]
    } else {
        decimal(n / 10).push(digit_char(n % 10))
    }
}

/// The decimal representation of `i`, with a leading `-` when negative,
/// as `Display` writes an integer.
pub open spec fn int_decimal(i: int) -> Seq<char> {
    if i < 0 {
        seq!['-'] + decimal((-i) as nat)
    } else {
        decimal(i as nat)
    }
}

fn digit_of(d: u64) -> (c: char)
    requires
        d < 10,
    ensures
        c == digit_char(d as nat),
{
    if d == 0 { '0' }
    else if d == 1 { '1' }
    else if d == 2 { '2' }
    else if d == 3 { '3' }
    else if d == 4 { '4' }
    else if d == 5 { '5' }
    else if d == 6 { '6' }
    else if d == 7 { '7' }
    else if d == 8 { '8' }
    else { '9' }
}

/// Appends the decimal representation of `n` to `s`.
pub fn push_decimal(s: &mut String, n: u64)
    ensures
        final(s)@ == old(s)@ + decimal(n as nat),
{
    let mut rev: Vec<char> = Vec::new();
    let mut m = n;
    let ghost mut acc: Seq<char> = Seq::empty();
    while m >= 10
        invariant
            decimal(n as nat) == decimal(m as nat) + acc,
            acc.len() == rev.len(),
            forall|k: int| 0 <= k < acc.len() ==> acc[k] == rev@[rev.len() - 1 - k],
        decreases m,
    {
        let d = digit_of(m % 10);
        proof {
            let m2 = (m / 10) as nat;
            assert(decimal(m as nat) == decimal(m2).push(d));
            assert(decimal(m2).push(d) + acc =~= decimal(m2) + (seq![d] + acc));
            acc = seq![d] + acc;
        }
        rev.push(d);
        m = m / 10;
    }
    let d = digit_of(m);
    proof {
        assert(decimal(m as nat) =~= seq![d]);
        acc = seq![d] + acc;
    }
    rev.push(d);
    let ghost start = s@;
    let mut j = rev.len();
    while j > 0
        invariant
            j <= rev.len(),
            acc.len() == rev.len(),
            forall|k: int| 0 <= k < acc.len() ==> acc[k] == rev@[rev.len() - 1 - k],
            s@ == start + acc.take(rev.len() - j),
        decreases j,
    {
        j = j - 1;
        proof {
            assert(acc.take(rev.len() - j) =~= acc.take(rev.len() - j - 1).push(rev@[j as int]));
        }
        push_char(s, rev[j]);
    }
    assert(acc.take(rev.len() as int) =~= acc);
    assert(decimal(n as nat) =~= acc);
}

/// Appends the decimal representation of `i` to `s`.
pub fn push_int_decimal(s: &mut String, i: i64)
    ensures
        final(s)@ == old(s)@ + int_decimal(i as int),
{
    if i < 0 {
        push_char(s, '-');
        let m: u64 = if i == i64::MIN {
            9223372036854775808u64
        } else {
            (-i) as u64
        };
        push_decimal(s, m);
        assert(old(s)@.push('-') + decimal(m as nat) =~= old(s)@ + (seq!['-'] + decimal(m as nat)));
    } else {
        push_decimal(s, i as u64);
    }
}

/// `c` with ASCII upper-case letters mapped to lower case.
pub open spec fn ascii_lower(c: char) -> char {
    if 'A' <= c && c <= 'Z' {
        ((c as u32) + 32) as char
    } else {
        c
    }
}

/// `str::to_ascii_lowercase`.
pub open spec fn ascii_lowercase(s: Seq<char>) -> Seq<char> {
    s.map_values(|c: char| ascii_lower(c))
}

/// `str::to_ascii_lowercase`.
pub fn to_ascii_lowercase(s: &str) -> (r: String)
    ensures
        r@ == ascii_lowercase(s@),
{
    let v = chars_of(s);
    let mut r = String::new();
    let mut i: usize = 0;
    while i < v.len()
        invariant
            i <= v.len(),
            r@ == ascii_lowercase(v@.take(i as int)),
        decreases v.len() - i,
    {
        let c = v[i];
        let l = if 'A' <= c && c <= 'Z' {
            ((c as u8) + 32) as char
        } else {
            c
        };
        push_char(&mut r, l);
        assert(ascii_lowercase(v@.take(i + 1)) =~= ascii_lowercase(v@.take(i as int)).push(l));
        i = i + 1;
    }
    assert(v@.take(v.len() as int) =~= v@);
    r
}

/// The pieces of `s` between separators `sep`, joined back with `sep` in between.
pub open spec fn join(pieces: Seq<Seq<char>>, sep: Seq<char>) -> Seq<char>
    decreases pieces.len(),
{
    if pieces.len() == 0 {
        Seq::empty()
    } else if pieces.len() == 1 {
        pieces[0]
    } else {
        join(pieces.drop_last(), sep) + sep + pieces.last()
    }
}

/// `[String]::join`: the pieces joined with `sep` in between.
pub fn join_strings(pieces: &Vec<String>, sep: &str) -> (r: String)
    ensures
        r@ == join(pieces@.map_values(|p: String| p@), sep@),
{
    let ghost views = pieces@.map_values(|p: String| p@);
    let mut r = String::new();
    let mut i: usize = 0;
    while i < pieces.len()
        invariant
            i <= pieces.len(),
            views == pieces@.map_values(|p: String| p@),
            r@ == join(views.take(i as int), sep@),
        decreases pieces.len() - i,
    {
        if i > 0 {
            push_str(&mut r, sep);
        }
        push_str(&mut r, pieces[i].as_str());
        proof {
            assert(views.take(i + 1).drop_last() =~= views.take(i as int));
            if i == 0 {
                assert(Seq::<char>::empty() + pieces@[0]@ =~= pieces@[0]@);
            }
        }
        i = i + 1;
    }
    assert(views.take(pieces.len() as int) =~= views);
    r
}

/// `line` without one trailing `'\r'`.
pub open spec fn strip_cr(line: Seq<char>) -> Seq<char> {
    if line.len() > 0 && line.last() == '\r' {
        line.drop_last()
    } else {
        line
    }
}

/// `k` is the position of the first `'\n'` in `s`.
pub open spec fn first_newline_at(s: Seq<char>, k: int) -> bool {
    0 <= k < s.len() && s[k] == '\n' && forall|j: int| 0 <= j < k ==> s[j] != '\n'
}

/// The lines of `s` as `str::lines` yields them: split at each `'\n'`,
/// a `'\r'` right before a `'\n'` removed, and no empty last line after a
/// final `'\n'`.
pub open spec fn lines(s: Seq<char>) -> Seq<Seq<char>>
    decreases s.len(),
{
    if s.len() == 0 {
        Seq::empty()
    } else if exists|k: int| first_newline_at(s, k) {
        let k = choose|k: int| first_newline_at(s, k);
        seq![strip_cr(s.take(k))] + lines(s.skip(k + 1))
    } else {
        seq![s]
    }
}

proof fn lemma_first_newline_unique(s: Seq<char>, k1: int, k2: int)
    requires
        first_newline_at(s, k1),
        first_newline_at(s, k2),
    ensures
        k1 == k2,
{
    if k1 < k2 {
        assert(s[k1] != '\n');
    } else if k2 < k1 {
        assert(s[k2] != '\n');
    }
}

/// `str::lines`: the lines of `s`, each as a `String`.
pub fn split_lines(s: &str) -> (r: Vec<String>)
    ensures
        r@.map_values(|l: String| l@) == lines(s@),
{
    let v = chars_of(s);
    let mut out: Vec<String> = Vec::new();
    let mut pos: usize = 0;
    assert(v@.skip(0) =~= v@);
    assert(out@.map_values(|l: String| l@) =~= Seq::<Seq<char>>::empty());
    assert(Seq::<Seq<char>>::empty() + lines(v@) =~= lines(v@));
    while pos < v.len()
        invariant
            pos <= v.len(),
            v@ == s@,
            lines(v@) == out@.map_values(|l: String| l@) + lines(v@.skip(pos as int)),
        decreases v.len() - pos,
    {
        let ghost rest = v@.skip(pos as int);
        let mut k = pos;
        while k < v.len() && v[k] != '\n'
            invariant
                pos <= k <= v.len(),
                forall|j: int| pos <= j < k ==> v@[j] != '\n',
            decreases v.len() - k,
        {
            k = k + 1;
        }
        let ghost old_views = out@.map_values(|l: String| l@);
        if k == v.len() {
            let line = string_of_range(&v, pos, k);
            proof {
                assert(line@ =~= rest);
                assert forall|k2: int| !first_newline_at(rest, k2) by {
                    if 0 <= k2 < rest.len() {
                        assert(rest[k2] == v@[pos + k2]);
                    }
                }
            }
            out.push(line);
            pos = k;
            proof {
                assert(v@.skip(pos as int) =~= Seq::<char>::empty());
                assert(out@.map_values(|l: String| l@) =~= old_views.push(line@));
                assert(old_views + seq![rest] =~= old_views.push(line@) + Seq::<Seq<char>>::empty());
            }
        } else {
            let mut end = k;
            if end > pos && v[end - 1] == '\r' {
                end = end - 1;
            }
            let line = string_of_range(&v, pos, end);
            let ghost kk = (k - pos) as int;
            proof {
                assert forall|j: int| 0 <= j < kk implies rest[j] != '\n' by {
                    assert(rest[j] == v@[pos + j]);
                }
                assert(first_newline_at(rest, kk));
                let c = choose|k2: int| first_newline_at(rest, k2);
                lemma_first_newline_unique(rest, c, kk);
                assert(rest.take(kk) =~= v@.subrange(pos as int, k as int));
                assert(line@ =~= strip_cr(rest.take(kk)));
                assert(rest.skip(kk + 1) =~= v@.skip(k + 1));
            }
            out.push(line);
            pos = k + 1;
            proof {
                assert(out@.map_values(|l: String| l@) =~= old_views.push(line@));
                assert(old_views + (seq![line@] + lines(v@.skip(pos as int))) =~= old_views.push(
                    line@,
                ) + lines(v@.skip(pos as int)));
            }
        }
    }
    assert(v@.skip(pos as int) =~= Seq::<char>::empty());
    assert(out@.map_values(|l: String| l@) + Seq::<Seq<char>>::empty() =~= out@.map_values(
        |l: String| l@,
    ));
    assert(v@.skip(0) =~= v@);
    out
}

/// The pieces of `s` between its `'\n'` characters, as `str::split('\n')`
/// yields them: one more piece than there are line breaks, empty pieces
/// included.
pub open spec fn newline_pieces(s: Seq<char>) -> Seq<Seq<char>>
    decreases s.len(),
{
    if exists|k: int| first_newline_at(s, k) {
        let k = choose|k: int| first_newline_at(s, k);
        seq![s.take(k)] + newline_pieces(s.skip(k + 1))
    } else {
        seq![s]
    }
}

/// `str::split('\n')`: the pieces of `s` between line breaks.
pub fn split_newlines(s: &str) -> (r: Vec<String>)
    ensures
        r@.map_values(|l: String| l@) == newline_pieces(s@),
{
    let v = chars_of(s);
    let mut out: Vec<String> = Vec::new();
    let mut pos: usize = 0;
    assert(v@.skip(0) =~= v@);
    assert(Seq::<Seq<char>>::empty() + newline_pieces(v@) =~= newline_pieces(v@));
    assert(out@.map_values(|l: String| l@) =~= Seq::<Seq<char>>::empty());
    loop
        invariant_except_break
            pos <= v.len(),
            v@ == s@,
            newline_pieces(v@) == out@.map_values(|l: String| l@) + newline_pieces(v@.skip(pos as int)),
        ensures
            out@.map_values(|l: String| l@) == newline_pieces(s@),
        decreases v.len() - pos,
    {
        let ghost rest = v@.skip(pos as int);
        let mut k = pos;
        while k < v.len() && v[k] != '\n'
            invariant
                pos <= k <= v.len(),
                forall|j: int| pos <= j < k ==> v@[j] != '\n',
            decreases v.len() - k,
        {
            k = k + 1;
        }
        let ghost old_views = out@.map_values(|l: String| l@);
        let piece = string_of_range(&v, pos, k);
        if k == v.len() {
            proof {
                assert(piece@ =~= rest);
                assert forall|k2: int| !first_newline_at(rest, k2) by {
                    if 0 <= k2 < rest.len() {
                        assert(rest[k2] == v@[pos + k2]);
                    }
                }
            }
            out.push(piece);
            assert(out@.map_values(|l: String| l@) =~= old_views + seq![rest]);
            break;
        }
        let ghost kk = (k - pos) as int;
        proof {
            assert forall|j: int| 0 <= j < kk implies rest[j] != '\n' by {
                assert(rest[j] == v@[pos + j]);
            }
            assert(first_newline_at(rest, kk));
            let c = choose|k2: int| first_newline_at(rest, k2);
            lemma_first_newline_unique(rest, c, kk);
            assert(rest.take(kk) =~= piece@);
            assert(rest.skip(kk + 1) =~= v@.skip(k + 1));
        }
        out.push(piece);
        pos = k + 1;
        proof {
            assert(out@.map_values(|l: String| l@) =~= old_views.push(piece@));
            assert(old_views + (seq![piece@] + newline_pieces(v@.skip(pos as int))) =~= old_views.push(
                piece@,
            ) + newline_pieces(v@.skip(pos as int)));
        }
    }
    out
}

/// `s` with every occurrence of `old` replaced by `new`, scanning from the
/// left without overlaps, as `str::replace` does (for an empty `old`, `s`
/// as it is).
pub open spec fn replaced(s: Seq<char>, old: Seq<char>, new: Seq<char>) -> Seq<char>
    decreases s.len(),
{
    if old.len() == 0 || s.len() == 0 {
        s
    } else if starts_with(s, old) {
        new + replaced(s.skip(old.len() as int), old, new)
    } else {
        seq![s[0]] + replaced(s.drop_first(), old, new)
    }
}

/// The number of occurrences of `old` in `s`, counted from the left without
/// overlaps (`str::matches(..).count()`; 0 for an empty `old`).
pub open spec fn occurrences(s: Seq<char>, old: Seq<char>) -> nat
    decreases s.len(),
{
    if old.len() == 0 || s.len() == 0 {
        0
    } else if starts_with(s, old) {
        1 + occurrences(s.skip(old.len() as int), old)
    } else {
        occurrences(s.drop_first(), old)
    }
}

/// `str::replace` together with the count of what it replaced.
pub fn replace_counting(s: &str, old: &str, new: &str) -> (r: (String, usize))
    ensures
        r.0@ == replaced(s@, old@, new@),
        r.1 == occurrences(s@, old@),
{
    let v = chars_of(s);
    let o = chars_of(old);
    if o.len() == 0 {
        return (to_owned_string(s), 0);
    }
    let mut out = String::new();
    let mut n: usize = 0;
    let mut i: usize = 0;
    assert(v@.skip(0) =~= v@);
    while i < v.len()
        invariant
            i <= v.len(),
            v@ == s@,
            o@ == old@,
            o.len() > 0,
            n <= i,
            replaced(v@, o@, new@) == out@ + replaced(v@.skip(i as int), o@, new@),
            occurrences(v@, o@) == n + occurrences(v@.skip(i as int), o@),
        decreases v.len() - i,
    {
        let ghost rest = v@.skip(i as int);
        if o.len() <= v.len() - i && occurs_at_exec(&v, &o, i) {
            proof {
                assert(rest.take(o.len() as int) =~= v@.subrange(i as int, i + o.len()));
                assert(starts_with(rest, o@));
                assert(rest.skip(o.len() as int) =~= v@.skip(i + o.len()));
            }
            push_str(&mut out, new);
            n = n + 1;
            i = i + o.len();
        } else {
            proof {
                if starts_with(rest, o@) {
                    assert(rest.take(o.len() as int) =~= v@.subrange(i as int, i + o.len()));
                }
                assert(rest.drop_first() =~= v@.skip(i + 1));
                assert(rest[0] == v@[i as int]);
            }
            push_char(&mut out, v[i]);
            i = i + 1;
        }
    }
    assert(v@.skip(i as int).len() == 0);
    assert(out@ + Seq::<char>::empty() =~= out@);
    (out, n)
}

} // verus!
