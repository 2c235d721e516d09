//! Start-up settings: truthy environment flags, and the choice of the
//! newest Xojo documentation directory by version name.

use vstd::prelude::*;
use crate::text::{ascii_lowercase, chars_of, str_eq, to_ascii_lowercase, trim, trim_string};

verus! {

/// A flag value that turns a setting on: `1`, `true`, `yes` or `on`, after
/// trimming and ignoring ASCII case.
pub open spec fn truthy(v: Seq<char>) -> bool {
    let l = ascii_lowercase(trim(v));
    l == "1"@ || l == "true"@ || l == "yes"@ || l == "on"@
}

/// Whether an environment variable's value turns a flag on.
pub fn is_truthy(value: &str) -> (r: bool)
    ensures
        r == truthy(value@),
{
    let t = trim_string(value);
    let l = to_ascii_lowercase(t.as_str());
    let s = l.as_str();
    str_eq(s, "1") || str_eq(s, "true") || str_eq(s, "yes") || str_eq(s, "on")
}

/// An ASCII digit.
pub open spec fn is_digit(c: char) -> bool {
    '0' <= c && c <= '9'
}

/// The value of the decimal digits `d`.
pub open spec fn digits_value(d: Seq<char>) -> nat
    decreases d.len(),
{
    if d.len() == 0 {
        0
    } else {
        digits_value(d.drop_last()) * 10 + ((d.last() as u32) - 48) as nat
    }
}

/// `parts` with the number of the digit run `run` added when it fits an
/// `i32` (a run that does not parse is skipped).
pub open spec fn flush(parts: Seq<i32>, run: Seq<char>) -> Seq<i32> {
    if run.len() > 0 && digits_value(run) <= i32::MAX {
        parts.push(digits_value(run) as i32)
    } else {
        parts
    }
}

/// The numbers found in `s[0..n]` so far, and the digit run in progress.
pub open spec fn scan(s: Seq<char>, n: int) -> (Seq<i32>, Seq<char>)
    decreases n,
{
    if n <= 0 {
        (Seq::empty(), Seq::empty())
    } else {
        let (parts, run) = scan(s, n - 1);
        let c = s[n - 1];
        if is_digit(c) {
            (parts, run.push(c))
        } else {
            (flush(parts, run), Seq::empty())
        }
    }
}

/// The numbers of the digit runs of `s`, in order, each that fits an `i32`.
pub open spec fn version_parts(s: Seq<char>) -> Seq<i32> {
    let (parts, run) = scan(s, s.len() as int);
    flush(parts, run)
}

/// The numeric parts of a version name such as `2024r9`: 2024 and 9.
pub fn extract_version_parts(value: &str) -> (r: Vec<i32>)
    ensures
        r@ == version_parts(value@),
{
    let v = chars_of(value);
    let mut parts: Vec<i32> = Vec::new();
    let mut run_len: usize = 0;
    let mut val: u64 = 0;
    let mut big = false;
    let ghost mut run: Seq<char> = Seq::empty();
    let mut i: usize = 0;
    while i < v.len()
        invariant
            i <= v.len(),
            v@ == value@,
            scan(v@, i as int) == (parts@, run),
            run_len == run.len(),
            run.len() <= i,
            big <==> digits_value(run) > i32::MAX,
            !big ==> val == digits_value(run),
            forall|k: int| 0 <= k < run.len() ==> is_digit(#[trigger] run[k]),
        decreases v.len() - i,
    {
        let c = v[i];
        if '0' <= c && c <= '9' {
            let d = (c as u32 - 48) as u64;
            proof {
                assert(run.push(c).drop_last() =~= run);
            }
            if !big {
                let nv = val * 10 + d;
                if nv > 2147483647 {
                    big = true;
                } else {
                    val = nv;
                }
            } else {
                assert(digits_value(run.push(c)) >= digits_value(run) * 10) by (nonlinear_arith)
                    requires
                        digits_value(run.push(c)) == digits_value(run) * 10 + ((c as u32) - 48) as nat,
                ;
                assert(digits_value(run) * 10 >= digits_value(run)) by (nonlinear_arith);
            }
            run_len = run_len + 1;
            proof {
                run = run.push(c);
            }
        } else {
            if run_len > 0 && !big {
                parts.push(val as i32);
            }
            run_len = 0;
            val = 0;
            big = false;
            proof {
                run = Seq::empty();
            }
        }
        i = i + 1;
    }
    if run_len > 0 && !big {
        parts.push(val as i32);
    }
    parts
}

/// The lower-case form of `s` that `str::to_lowercase` gives.
pub uninterp spec fn lowercase_of(s: Seq<char>) -> Seq<char>;

/// Calls `str::to_lowercase`; its result is named [`lowercase_of`] of the
/// argument.
#[verifier::external_body]
pub(crate) fn lowercase(s: &str) -> (r: String)
    ensures
        r@ == lowercase_of(s@),
{
    s.to_lowercase()
}

/// The lexicographic order of two strings by character code: -1, 0 or 1,
/// as `Ord` for `String` orders them.
pub open spec fn lex_order(a: Seq<char>, b: Seq<char>) -> int
    decreases a.len(),
{
    if a.len() == 0 {
        if b.len() == 0 {
            0
        } else {
            -1
        }
    } else if b.len() == 0 {
        1
    } else if (a[0] as u32) == (b[0] as u32) {
        lex_order(a.drop_first(), b.drop_first())
    } else if (a[0] as u32) < (b[0] as u32) {
        -1
    } else {
        1
    }
}

/// The part `i` of `p`, 0 past its end.
pub open spec fn part_at(p: Seq<i32>, i: int) -> int {
    if 0 <= i < p.len() {
        p[i] as int
    } else {
        0
    }
}

/// Compares numeric parts from position `i` on, the shorter list padded
/// with zeros.
pub open spec fn parts_order(a: Seq<i32>, b: Seq<i32>, i: nat) -> int
    decreases (if a.len() > b.len() { a.len() } else { b.len() }) - i,
{
    if i >= a.len() && i >= b.len() {
        0
    } else if part_at(a, i as int) > part_at(b, i as int) {
        1
    } else if part_at(a, i as int) < part_at(b, i as int) {
        -1
    } else {
        parts_order(a, b, i + 1)
    }
}

/// The order of two version directory names: by their numeric parts when
/// either has one, else by their lower-case forms.
pub open spec fn version_order(a: Seq<char>, b: Seq<char>) -> int {
    let pa = version_parts(a);
    let pb = version_parts(b);
    if pa.len() > 0 || pb.len() > 0 {
        parts_order(pa, pb, 0)
    } else {
        lex_order(lowercase_of(a), lowercase_of(b))
    }
}

fn lex_compare(a: &Vec<char>, b: &Vec<char>) -> (r: i32)
    ensures
        r == lex_order(a@, b@),
{
    let mut i: usize = 0;
    assert(a@.skip(0) =~= a@);
    assert(b@.skip(0) =~= b@);
    while i < a.len() && i < b.len() && (a[i] as u32) == (b[i] as u32)
        invariant
            i <= a.len(),
            i <= b.len(),
            lex_order(a@, b@) == lex_order(a@.skip(i as int), b@.skip(i as int)),
        decreases a.len() - i,
    {
        proof {
            assert(a@.skip(i as int).drop_first() =~= a@.skip(i + 1));
            assert(b@.skip(i as int).drop_first() =~= b@.skip(i + 1));
        }
        i = i + 1;
    }
    let ghost sa = a@.skip(i as int);
    let ghost sb = b@.skip(i as int);
    assert(sa.len() == a.len() - i);
    assert(sb.len() == b.len() - i);
    if i == a.len() {
        if i == b.len() {
            0
        } else {
            -1
        }
    } else if i == b.len() {
        1
    } else {
        assert(sa[0] == a@[i as int] && sb[0] == b@[i as int]);
        if (a[i] as u32) < (b[i] as u32) {
            -1
        } else {
            1
        }
    }
}

/// Compares two version directory names such as `2024r9` and `2024r10`:
/// 1 when `a` is newer, -1 when older, 0 when equal.
pub fn compare_version_names(a: &str, b: &str) -> (r: i32)
    ensures
        r == version_order(a@, b@),
{
    let pa = extract_version_parts(a);
    let pb = extract_version_parts(b);
    if pa.len() > 0 || pb.len() > 0 {
        let max_count = if pa.len() > pb.len() {
            pa.len()
        } else {
            pb.len()
        };
        let mut i: usize = 0;
        while i < max_count
            invariant
                pa@ == version_parts(a@),
                pb@ == version_parts(b@),
                pa.len() > 0 || pb.len() > 0,
                max_count == (if pa.len() > pb.len() { pa.len() } else { pb.len() }),
                i <= max_count,
                parts_order(pa@, pb@, 0) == parts_order(pa@, pb@, i as nat),
            decreases max_count - i,
        {
            let av: i32 = if i < pa.len() {
                pa[i]
            } else {
                0
            };
            let bv: i32 = if i < pb.len() {
                pb[i]
            } else {
                0
            };
            assert(av == part_at(pa@, i as int));
            assert(bv == part_at(pb@, i as int));
            if av > bv {
                return 1;
            }
            if av < bv {
                return -1;
            }
            i = i + 1;
        }
        return 0;
    }
    let la = lowercase(a);
    let lb = lowercase(b);
    let ca = chars_of(la.as_str());
    let cb = chars_of(lb.as_str());
    lex_compare(&ca, &cb)
}

proof fn lemma_lex_antisymmetric(a: Seq<char>, b: Seq<char>)
    ensures
        lex_order(a, b) == -lex_order(b, a),
    decreases a.len(),
{
    if a.len() > 0 && b.len() > 0 {
        if (a[0] as u32) == (b[0] as u32) {
            lemma_lex_antisymmetric(a.drop_first(), b.drop_first());
        }
    }
}

proof fn lemma_parts_antisymmetric(a: Seq<i32>, b: Seq<i32>, i: nat)
    ensures
        parts_order(a, b, i) == -parts_order(b, a, i),
    decreases (if a.len() > b.len() { a.len() } else { b.len() }) - i,
{
    if !(i >= a.len() && i >= b.len()) && part_at(a, i as int) == part_at(b, i as int) {
        lemma_parts_antisymmetric(a, b, i + 1);
    }
}

/// Comparing two version names one way gives the opposite of comparing
/// them the other way; a name equals itself.
pub proof fn law_version_order_antisymmetric(a: Seq<char>, b: Seq<char>)
    ensures
        version_order(a, b) == -version_order(b, a),
        version_order(a, a) == 0,
{
    lemma_parts_antisymmetric(version_parts(a), version_parts(b), 0);
    lemma_lex_antisymmetric(lowercase_of(a), lowercase_of(b));
    lemma_parts_antisymmetric(version_parts(a), version_parts(a), 0);
    lemma_lex_antisymmetric(lowercase_of(a), lowercase_of(a));
}

proof fn lemma_lex_transitive(a: Seq<char>, b: Seq<char>, c: Seq<char>)
    requires
        lex_order(a, b) > 0,
        lex_order(b, c) > 0,
    ensures
        lex_order(a, c) > 0,
    decreases a.len(),
{
    if a.len() > 0 && b.len() > 0 && c.len() > 0 && (a[0] as u32) == (b[0] as u32) && (b[0] as u32)
        == (c[0] as u32) {
        lemma_lex_transitive(a.drop_first(), b.drop_first(), c.drop_first());
    }
}

proof fn lemma_parts_step(a: Seq<i32>, b: Seq<i32>, i: nat)
    requires
        part_at(a, i as int) == part_at(b, i as int),
    ensures
        parts_order(a, b, i) == parts_order(a, b, i + 1),
{
    if i >= a.len() && i >= b.len() {
        assert(parts_order(a, b, i + 1) == 0);
    }
}

proof fn lemma_parts_transitive(a: Seq<i32>, b: Seq<i32>, c: Seq<i32>, i: nat)
    requires
        parts_order(a, b, i) >= 0,
        parts_order(b, c, i) >= 0,
    ensures
        parts_order(a, c, i) >= 0,
        parts_order(a, b, i) > 0 || parts_order(b, c, i) > 0 ==> parts_order(a, c, i) > 0,
    decreases (if a.len() > b.len() {
        if a.len() > c.len() { a.len() } else { c.len() }
    } else {
        if b.len() > c.len() { b.len() } else { c.len() }
    }) - i,
{
    let x = part_at(a, i as int);
    let y = part_at(b, i as int);
    let z = part_at(c, i as int);
    if x == y {
        lemma_parts_step(a, b, i);
    }
    if y == z {
        lemma_parts_step(b, c, i);
    }
    if x == z {
        lemma_parts_step(a, c, i);
    }
    if x == y && y == z && !(i >= a.len() && i >= b.len() && i >= c.len()) {
        lemma_parts_transitive(a, b, c, i + 1);
    }
}

/// A name newer than a second one, which is newer than a third, is newer
/// than the third.
pub proof fn law_version_order_transitive(a: Seq<char>, b: Seq<char>, c: Seq<char>)
    requires
        version_order(a, b) > 0,
        version_order(b, c) > 0,
    ensures
        version_order(a, c) > 0,
{
    let pa = version_parts(a);
    let pb = version_parts(b);
    let pc = version_parts(c);
    if pa.len() == 0 && pb.len() == 0 && pc.len() == 0 {
        lemma_lex_transitive(lowercase_of(a), lowercase_of(b), lowercase_of(c));
    } else {
        if pa.len() == 0 && pb.len() == 0 {
            assert(parts_order(pa, pb, 0) == 0);
        }
        if pb.len() == 0 && pc.len() == 0 {
            assert(parts_order(pb, pc, 0) == 0);
        }
        lemma_parts_transitive(pa, pb, pc, 0);
        if pa.len() == 0 && pc.len() == 0 {
            assert(parts_order(pa, pc, 0) == 0);
        }
    }
}

/// The entry kept among `names[0..n]`: the first one, replaced by each later
/// one that compares newer than the one kept.
pub open spec fn newest(names: Seq<Seq<char>>, n: int) -> Option<int>
    decreases n,
{
    if n <= 0 {
        None
    } else {
        match newest(names, n - 1) {
            None => Some(n - 1),
            Some(b) => if version_order(names[n - 1], names[b]) > 0 {
                Some(n - 1)
            } else {
                Some(b)
            },
        }
    }
}

/// The entry kept among the first `n` names is one of them, and none of
/// them compares newer than it; there is one as soon as there is a name.
pub proof fn law_newest_is_not_older(names: Seq<Seq<char>>, n: int)
    requires
        n <= names.len(),
    ensures
        newest(names, n) is None <==> n <= 0,
        newest(names, n) matches Some(k) ==> 0 <= k < n && forall|j: int|
            0 <= j < n ==> version_order(#[trigger] names[j], names[k]) <= 0,
    decreases n,
{
    if n > 0 {
        law_newest_is_not_older(names, n - 1);
        law_version_order_antisymmetric(names[n - 1], names[n - 1]);
        match newest(names, n - 1) {
            None => {},
            Some(b) => {
                if version_order(names[n - 1], names[b]) > 0 {
                    assert forall|j: int| 0 <= j < n implies version_order(
                        #[trigger] names[j],
                        names[n - 1],
                    ) <= 0 by {
                        if j < n - 1 && version_order(names[j], names[n - 1]) > 0 {
                            law_version_order_transitive(names[j], names[n - 1], names[b]);
                        }
                    }
                }
            },
        }
    }
}

/// Of the version directories that hold documentation, the one to use: the
/// newest by [`compare_version_names`], the earlier one on a tie.
pub fn newest_version(names: &Vec<String>) -> (r: Option<usize>)
    ensures
        match r {
            Some(k) => newest(names@.map_values(|s: String| s@), names.len() as int) == Some(k as int),
            None => newest(names@.map_values(|s: String| s@), names.len() as int) is None,
        },
        r is None <==> names.len() == 0,
        r matches Some(k) ==> k < names.len() && forall|j: int|
            0 <= j < names.len() ==> version_order(#[trigger] names@[j]@, names@[k as int]@) <= 0,
{
    let ghost nv = names@.map_values(|s: String| s@);
    let mut best: Option<usize> = None;
    let mut i: usize = 0;
    while i < names.len()
        invariant
            i <= names.len(),
            nv == names@.map_values(|s: String| s@),
            match best {
                Some(k) => k < i && newest(nv, i as int) == Some(k as int),
                None => newest(nv, i as int) is None,
            },
        decreases names.len() - i,
    {
        match best {
            None => {
                best = Some(i);
            },
            Some(k) => {
                if compare_version_names(names[i].as_str(), names[k].as_str()) > 0 {
                    best = Some(i);
                }
            },
        }
        i = i + 1;
    }
    proof {
        law_newest_is_not_older(nv, names.len() as int);
        if let Some(k) = best {
            assert forall|j: int| 0 <= j < names.len() implies version_order(
                #[trigger] names@[j]@,
                names@[k as int]@,
            ) <= 0 by {
                assert(nv[j] == names@[j]@);
                assert(nv[k as int] == names@[k as int]@);
            }
        }
    }
    best
}

} // verus!
