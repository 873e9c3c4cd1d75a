//! Character-level string operations used by the command parser and the
//! reply builders. Every operation is specified over `Seq<char>`, the view
//! of `str` and `String`.

use vstd::prelude::*;

verus! {

broadcast use vstd::string::group_string_axioms;

// ---------------------------------------------------------------------------
// Specifications
// ---------------------------------------------------------------------------

/// Unicode `White_Space`: the characters that `char::is_whitespace` accepts.
pub open spec fn is_white_space(c: char) -> bool {
    let u = c as u32;
    ||| 0x09 <= u <= 0x0D
    ||| u == 0x20
    ||| u == 0x85
    ||| u == 0xA0
    ||| u == 0x1680
    ||| 0x2000 <= u <= 0x200A
    ||| u == 0x2028
    ||| u == 0x2029
    ||| u == 0x202F
    ||| u == 0x205F
    ||| u == 0x3000
}

/// `s` with its leading white space removed.
pub open spec fn trim_start_spec(s: Seq<char>) -> Seq<char>
    decreases s.len(),
{
    if s.len() > 0 && is_white_space(s[0]) {
        trim_start_spec(s.drop_first())
    } else {
        s
    }
}

/// `s` with its trailing white space removed.
pub open spec fn trim_end_spec(s: Seq<char>) -> Seq<char>
    decreases s.len(),
{
    if s.len() > 0 && is_white_space(s.last()) {
        trim_end_spec(s.drop_last())
    } else {
        s
    }
}

/// `s` with leading and trailing white space removed.
pub open spec fn trim_spec(s: Seq<char>) -> Seq<char> {
    trim_end_spec(trim_start_spec(s))
}

/// `s` with every leading occurrence of the pattern `p` removed, repeatedly;
/// an empty pattern removes nothing.
pub open spec fn strip_prefixes_spec(s: Seq<char>, p: Seq<char>) -> Seq<char>
    decreases s.len(),
{
    if p.len() > 0 && p.is_prefix_of(s) {
        strip_prefixes_spec(s.skip(p.len() as int), p)
    } else {
        s
    }
}

/// `p` occurs in `s` starting at position `i`.
pub open spec fn occurs_at(s: Seq<char>, p: Seq<char>, i: int) -> bool {
    0 <= i && i + p.len() <= s.len() && s.subrange(i, i + p.len()) == p
}

/// `p` occurs somewhere in `s`.
pub open spec fn contains_spec(s: Seq<char>, p: Seq<char>) -> bool {
    exists|i: int| occurs_at(s, p, i)
}

/// `s` with every occurrence of the non-empty pattern `p` replaced by `r`,
/// matches taken from the left and never overlapping.
pub open spec fn replace_spec(s: Seq<char>, p: Seq<char>, r: Seq<char>) -> Seq<char>
    decreases s.len(),
{
    if p.len() == 0 || s.len() == 0 {
        s
    } else if p.is_prefix_of(s) {
        r + replace_spec(s.skip(p.len() as int), p, r)
    } else {
        seq![s[0]] + replace_spec(s.drop_first(), p, r)
    }
}

/// The first `n` characters of `s`, or all of `s` when it is shorter.
pub open spec fn take_spec(s: Seq<char>, n: nat) -> Seq<char> {
    if n < s.len() {
        s.take(n as int)
    } else {
        s
    }
}

// ---------------------------------------------------------------------------
// Lemmas
// ---------------------------------------------------------------------------

proof fn lemma_occurs_at_prefix(s: Seq<char>, p: Seq<char>, i: int)
    requires
        0 <= i <= s.len(),
    ensures
        occurs_at(s, p, i) <==> p.is_prefix_of(s.skip(i)),
{
    if p.len() <= s.len() - i {
        assert(s.skip(i).subrange(0, p.len() as int) =~= s.subrange(i, i + p.len()));
    }
}

proof fn lemma_trim_start_skip(s: Seq<char>, i: int)
    requires
        0 <= i < s.len(),
        is_white_space(s[i]),
    ensures
        trim_start_spec(s.skip(i)) == trim_start_spec(s.skip(i + 1)),
{
    assert(s.skip(i).drop_first() =~= s.skip(i + 1));
}

/// Trimming removes no more than the white space at either end: what is left
/// starts and ends with a character that is not white space.
pub proof fn lemma_trim_bounds(s: Seq<char>)
    ensures
        trim_spec(s).len() > 0 ==> !is_white_space(trim_spec(s)[0]),
        trim_spec(s).len() > 0 ==> !is_white_space(trim_spec(s).last()),
    decreases s.len(),
{
    lemma_trim_start_bounds(s);
    lemma_trim_end_bounds(trim_start_spec(s));
    let t = trim_start_spec(s);
    lemma_trim_end_prefix(t);
}

proof fn lemma_trim_start_bounds(s: Seq<char>)
    ensures
        trim_start_spec(s).len() > 0 ==> !is_white_space(trim_start_spec(s)[0]),
    decreases s.len(),
{
    if s.len() > 0 && is_white_space(s[0]) {
        lemma_trim_start_bounds(s.drop_first());
    }
}

proof fn lemma_trim_end_bounds(s: Seq<char>)
    ensures
        trim_end_spec(s).len() > 0 ==> !is_white_space(trim_end_spec(s).last()),
    decreases s.len(),
{
    if s.len() > 0 && is_white_space(s.last()) {
        lemma_trim_end_bounds(s.drop_last());
    }
}

proof fn lemma_trim_end_prefix(s: Seq<char>)
    ensures
        trim_end_spec(s).is_prefix_of(s),
    decreases s.len(),
{
    if s.len() > 0 && is_white_space(s.last()) {
        lemma_trim_end_prefix(s.drop_last());
        assert(s.drop_last().subrange(0, trim_end_spec(s).len() as int) =~= s.subrange(
            0,
            trim_end_spec(s).len() as int,
        ));
    } else {
        assert(s.subrange(0, s.len() as int) =~= s);
    }
}

// ---------------------------------------------------------------------------
// Executable operations
// ---------------------------------------------------------------------------

/// Appends one character to a string (`String::push`).
#[verifier::external_body]
fn push_char(s: &mut String, c: char)
    ensures
        final(s)@ == old(s)@.push(c),
{
    s.push(c);
}

/// The characters of `s`, in order.
pub fn chars_of(s: &str) -> (v: Vec<char>)
    ensures
        v@ == s@,
{
    let mut v: Vec<char> = Vec::new();
    for c in it: s.chars()
        invariant
            it.seq() == s@,
            v@ == it.seq().take(it.index()),
    {
        v.push(c);
    }
    v
}

/// The string made of the characters `v[lo..hi]`.
pub fn string_from_chars(v: &Vec<char>, lo: usize, hi: usize) -> (r: String)
    requires
        lo <= hi <= v.len(),
    ensures
        r@ == v@.subrange(lo as int, hi as int),
{
    let mut r = String::new();
    let mut i = lo;
    while i < hi
        invariant
            lo <= i <= hi <= v.len(),
            r@ == v@.subrange(lo as int, i as int),
        decreases hi - i,
    {
        push_char(&mut r, v[i]);
        assert(v@.subrange(lo as int, i + 1) =~= v@.subrange(lo as int, i as int).push(v@[i as int]));
        i = i + 1;
    }
    r
}

/// Whether `c` is white space in the sense of Unicode `White_Space`.
pub fn is_white_space_char(c: char) -> (r: bool)
    ensures
        r == is_white_space(c),
{
    let u = c as u32;
    (0x09 <= u && u <= 0x0D) || u == 0x20 || u == 0x85 || u == 0xA0 || u == 0x1680 || (0x2000
        <= u && u <= 0x200A) || u == 0x2028 || u == 0x2029 || u == 0x202F || u == 0x205F || u
        == 0x3000
}

/// Whether the pattern `p` occurs in `t` at position `i`.
fn matches_at(t: &Vec<char>, p: &Vec<char>, i: usize) -> (r: bool)
    requires
        i <= t.len(),
    ensures
        r == p@.is_prefix_of(t@.skip(i as int)),
        r == occurs_at(t@, p@, i as int),
{
    proof {
        lemma_occurs_at_prefix(t@, p@, i as int);
    }
    if p.len() > t.len() - i {
        return false;
    }
    let mut k: usize = 0;
    while k < p.len()
        invariant
            i + p.len() <= t.len(),
            k <= p.len(),
            forall|j: int| 0 <= j < k ==> t@[i + j] == p@[j],
        decreases p.len() - k,
    {
        if t[i + k] != p[k] {
            assert(t@.subrange(i as int, i + p.len())[k as int] != p@[k as int]);
            return false;
        }
        k = k + 1;
    }
    assert(t@.subrange(i as int, i + p.len()) =~= p@);
    true
}

/// Whether `s` starts with `p` (`str::starts_with`).
pub fn starts_with(s: &str, p: &str) -> (r: bool)
    ensures
        r == p@.is_prefix_of(s@),
{
    let t = chars_of(s);
    let q = chars_of(p);
    assert(t@.skip(0) =~= t@);
    matches_at(&t, &q, 0)
}

/// Whether `p` occurs in `s` (`str::contains`).
pub fn contains(s: &str, p: &str) -> (r: bool)
    ensures
        r == contains_spec(s@, p@),
{
    let t = chars_of(s);
    let q = chars_of(p);
    if q.len() > t.len() {
        assert forall|i: int| !occurs_at(t@, q@, i) by {}
        return false;
    }
    let last = t.len() - q.len();
    let mut i: usize = 0;
    while i <= last
        invariant
            last == t.len() - q.len(),
            q.len() <= t.len(),
            t@ == s@,
            q@ == p@,
            i <= last + 1,
            forall|j: int| 0 <= j < i ==> !occurs_at(t@, q@, j),
        decreases last + 1 - i,
    {
        if matches_at(&t, &q, i) {
            assert(occurs_at(t@, q@, i as int));
            return true;
        }
        i = i + 1;
    }
    assert forall|j: int| !occurs_at(t@, q@, j) by {
        if 0 <= j < i {
        }
    }
    false
}

/// `s` with leading and trailing white space removed (`str::trim`).
pub fn trim(s: &str) -> (r: String)
    ensures
        r@ == trim_spec(s@),
{
    let t = chars_of(s);
    let n = t.len();
    let mut i: usize = 0;
    assert(t@.skip(0) =~= t@);
    while i < n && is_white_space_char(t[i])
        invariant
            i <= n == t.len(),
            trim_start_spec(t@) == trim_start_spec(t@.skip(i as int)),
        decreases n - i,
    {
        proof {
            lemma_trim_start_skip(t@, i as int);
        }
        i = i + 1;
    }
    assert(trim_start_spec(t@.skip(i as int)) == t@.skip(i as int)) by {
        if i < n {
            assert(t@.skip(i as int)[0] == t@[i as int]);
        }
    }
    assert(t@.skip(i as int) =~= t@.subrange(i as int, n as int));
    let mut j: usize = n;
    while j > i && is_white_space_char(t[j - 1])
        invariant
            i <= j <= n == t.len(),
            trim_spec(t@) == trim_end_spec(t@.subrange(i as int, j as int)),
        decreases j,
    {
        assert(t@.subrange(i as int, j as int).drop_last() =~= t@.subrange(i as int, j - 1));
        j = j - 1;
    }
    string_from_chars(&t, i, j)
}

/// `s` with every leading occurrence of `p` removed, repeatedly
/// (`str::trim_start_matches` with a string pattern).
pub fn trim_start_matches(s: &str, p: &str) -> (r: String)
    ensures
        r@ == strip_prefixes_spec(s@, p@),
{
    let t = chars_of(s);
    let q = chars_of(p);
    if q.len() == 0 {
        assert(t@.subrange(0, t@.len() as int) =~= t@);
        return string_from_chars(&t, 0, t.len());
    }
    let mut i: usize = 0;
    assert(t@.skip(0) =~= t@);
    while matches_at(&t, &q, i)
        invariant
            i <= t.len(),
            q@.len() > 0,
            strip_prefixes_spec(t@, q@) == strip_prefixes_spec(t@.skip(i as int), q@),
        decreases t.len() - i,
    {
        assert(t@.skip(i as int).skip(q@.len() as int) =~= t@.skip(i + q@.len()));
        i = i + q.len();
    }
    assert(t@.skip(i as int) =~= t@.subrange(i as int, t@.len() as int));
    string_from_chars(&t, i, t.len())
}

/// `s` with every occurrence of the non-empty pattern `p` replaced by `with`
/// (`str::replace` with a non-empty string pattern).
pub fn replace(s: &str, p: &str, with: &str) -> (r: String)
    requires
        p@.len() > 0,
    ensures
        r@ == replace_spec(s@, p@, with@),
{
    let t = chars_of(s);
    let q = chars_of(p);
    let w = chars_of(with);
    let mut out = String::new();
    let mut i: usize = 0;
    assert(t@.skip(0) =~= t@);
    while i < t.len()
        invariant
            i <= t.len(),
            q@.len() > 0,
            w@ == with@,
            replace_spec(t@, q@, w@) == out@ + replace_spec(t@.skip(i as int), q@, w@),
        decreases t.len() - i,
    {
        let ghost rest = t@.skip(i as int);
        if matches_at(&t, &q, i) {
            out.append(with);
            assert(rest.skip(q@.len() as int) =~= t@.skip(i + q@.len()));
            assert(replace_spec(rest, q@, w@) == w@ + replace_spec(t@.skip(i + q@.len()), q@, w@));
            i = i + q.len();
        } else {
            push_char(&mut out, t[i]);
            assert(rest.drop_first() =~= t@.skip(i + 1));
            assert(rest[0] == t@[i as int]);
            assert(replace_spec(rest, q@, w@) == seq![t@[i as int]] + replace_spec(
                t@.skip(i + 1),
                q@,
                w@,
            ));
            i = i + 1;
        }
    }
    assert(replace_spec(t@.skip(i as int), q@, w@) =~= Seq::<char>::empty());
    out
}

/// The first `n` characters of `s` (`s.chars().take(n).collect()`).
pub fn take_chars(s: &str, n: usize) -> (r: String)
    ensures
        r@ == take_spec(s@, n as nat),
{
    let t = chars_of(s);
    let end = if n < t.len() {
        n
    } else {
        t.len()
    };
    assert(t@.take(end as int) =~= t@.subrange(0, end as int));
    assert(t@.subrange(0, t@.len() as int) =~= t@);
    string_from_chars(&t, 0, end)
}


proof fn lemma_trim_start_shape(s: Seq<char>)
    ensures
        exists|i: int|
            0 <= i <= s.len() && trim_start_spec(s) == s.skip(i) && forall|k: int|
                0 <= k < i ==> is_white_space(#[trigger] s[k]),
    decreases s.len(),
{
    if s.len() > 0 && is_white_space(s[0]) {
        lemma_trim_start_shape(s.drop_first());
        let i = choose|i: int|
            0 <= i <= s.drop_first().len() && trim_start_spec(s.drop_first())
                == s.drop_first().skip(i) && forall|k: int|
                0 <= k < i ==> is_white_space(#[trigger] s.drop_first()[k]);
        assert(s.drop_first().skip(i) =~= s.skip(i + 1));
        assert forall|k: int| 0 <= k < i + 1 implies is_white_space(#[trigger] s[k]) by {
            if k > 0 {
                assert(s[k] == s.drop_first()[k - 1]);
            }
        }
    } else {
        assert(s.skip(0) =~= s);
    }
}

proof fn lemma_trim_end_shape(s: Seq<char>)
    ensures
        exists|j: int|
            0 <= j <= s.len() && trim_end_spec(s) == s.take(j) && forall|k: int|
                j <= k < s.len() ==> is_white_space(#[trigger] s[k]),
    decreases s.len(),
{
    if s.len() > 0 && is_white_space(s.last()) {
        lemma_trim_end_shape(s.drop_last());
        let j = choose|j: int|
            0 <= j <= s.drop_last().len() && trim_end_spec(s.drop_last()) == s.drop_last().take(j)
                && forall|k: int|
                j <= k < s.drop_last().len() ==> is_white_space(#[trigger] s.drop_last()[k]);
        assert(s.drop_last().take(j) =~= s.take(j));
        assert forall|k: int| j <= k < s.len() implies is_white_space(#[trigger] s[k]) by {
            if k < s.len() - 1 {
                assert(s[k] == s.drop_last()[k]);
            }
        }
    } else {
        assert(s.take(s.len() as int) =~= s);
    }
}

/// Trimming keeps a contiguous part of the string and removes only white
/// space: the result is `s[i..j]` with every character before `i` and from
/// `j` on white space, and the result neither starts nor ends with white
/// space.
pub proof fn lemma_trim_shape(s: Seq<char>)
    ensures
        exists|i: int, j: int|
            0 <= i <= j <= s.len() && trim_spec(s) == s.subrange(i, j) && (forall|k: int|
                0 <= k < i ==> is_white_space(#[trigger] s[k])) && (forall|k: int|
                j <= k < s.len() ==> is_white_space(#[trigger] s[k])),
        trim_spec(s).len() > 0 ==> !is_white_space(trim_spec(s)[0]) && !is_white_space(
            trim_spec(s).last(),
        ),
{
    lemma_trim_bounds(s);
    lemma_trim_start_shape(s);
    let i = choose|i: int|
        0 <= i <= s.len() && trim_start_spec(s) == s.skip(i) && forall|k: int|
            0 <= k < i ==> is_white_space(#[trigger] s[k]);
    let t = s.skip(i);
    lemma_trim_end_shape(t);
    let j = choose|j: int|
        0 <= j <= t.len() && trim_end_spec(t) == t.take(j) && forall|k: int|
            j <= k < t.len() ==> is_white_space(#[trigger] t[k]);
    assert(t.take(j) =~= s.subrange(i, i + j));
    assert forall|k: int| i + j <= k < s.len() implies is_white_space(#[trigger] s[k]) by {
        assert(s[k] == t[k - i]);
    }
}


/// `k` copies of `p`, one after another.
pub open spec fn repeat_seq(p: Seq<char>, k: nat) -> Seq<char> {
    Seq::new(k, |_i: int| p).flatten()
}

/// Removing the leading occurrences of a non-empty pattern takes off `k`
/// copies of it, for some `k`, and leaves a rest that does not start with it.
pub proof fn lemma_strip_prefixes_shape(s: Seq<char>, p: Seq<char>)
    requires
        p.len() > 0,
    ensures
        exists|k: nat| s == #[trigger] repeat_seq(p, k) + strip_prefixes_spec(s, p),
        !p.is_prefix_of(strip_prefixes_spec(s, p)),
    decreases s.len(),
{
    if p.is_prefix_of(s) {
        let rest = s.skip(p.len() as int);
        lemma_strip_prefixes_shape(rest, p);
        let k = choose|k: nat| rest == #[trigger] repeat_seq(p, k) + strip_prefixes_spec(rest, p);
        let copies = Seq::new(k + 1, |_i: int| p);
        assert(copies.drop_first() =~= Seq::new(k, |_i: int| p));
        assert(copies.flatten() == p + Seq::new(k, |_i: int| p).flatten());
        assert(s =~= p + rest);
        assert(s == repeat_seq(p, k + 1) + strip_prefixes_spec(s, p));
    } else {
        let none = Seq::new(0, |_i: int| p);
        assert(none.flatten() =~= Seq::<char>::empty());
        assert(s == repeat_seq(p, 0) + strip_prefixes_spec(s, p));
    }
}

/// Replacing a pattern that does not occur leaves the string unchanged.
pub proof fn lemma_replace_absent(s: Seq<char>, p: Seq<char>, r: Seq<char>)
    requires
        p.len() > 0,
        !contains_spec(s, p),
    ensures
        replace_spec(s, p, r) == s,
    decreases s.len(),
{
    if s.len() > 0 {
        assert(!p.is_prefix_of(s)) by {
            if p.is_prefix_of(s) {
                assert(occurs_at(s, p, 0));
            }
        }
        let t = s.drop_first();
        assert(!contains_spec(t, p)) by {
            if contains_spec(t, p) {
                let i = choose|i: int| occurs_at(t, p, i);
                assert(t.subrange(i, i + p.len()) =~= s.subrange(i + 1, i + 1 + p.len()));
                assert(occurs_at(s, p, i + 1));
            }
        }
        lemma_replace_absent(t, p, r);
        assert(s =~= seq![s[0]] + t);
    }
}

} // verus!
