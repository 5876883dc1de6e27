//! Character-sequence helpers shared by the parsing and formatting modules.
//!
//! Executable code works on `Vec<char>`; specifications speak of `Seq<char>`.

use vstd::prelude::*;

verus! {

// ---------------------------------------------------------------------------
// Substring occurrence
// ---------------------------------------------------------------------------

/// `needle` occurs in `hay` starting at position `i`.
pub open spec fn matches_at(hay: Seq<char>, needle: Seq<char>, i: int) -> bool {
    0 <= i && i + needle.len() <= hay.len() && hay.subrange(i, i + needle.len() as int)
        == needle
}

/// `needle` occurs somewhere in `hay`.
pub open spec fn contains_seq(hay: Seq<char>, needle: Seq<char>) -> bool {
    exists|i: int| matches_at(hay, needle, i)
}

pub open spec fn starts_with(hay: Seq<char>, prefix: Seq<char>) -> bool {
    prefix.len() <= hay.len() && hay.subrange(0, prefix.len() as int) == prefix
}

pub open spec fn ends_with(hay: Seq<char>, suffix: Seq<char>) -> bool {
    suffix.len() <= hay.len() && hay.subrange(
        hay.len() - suffix.len(),
        hay.len() as int,
    ) == suffix
}

/// `needle` occurs in `hay` at `i`, decided by character comparison.
pub fn is_match_at(hay: &Vec<char>, needle: &Vec<char>, i: usize) -> (r: bool)
    requires
        i <= hay@.len(),
        needle@.len() <= hay@.len() - i,
    ensures
        r == matches_at(hay@, needle@, i as int),
{
    let hay_len = hay.len();
    let n = needle.len();
    let mut j: usize = 0;
    while j < n
        invariant
            n == needle@.len(),
            hay_len == hay@.len(),
            i + n <= hay@.len(),
            j <= n,
            forall|k: int| 0 <= k < j ==> hay@[i + k] == needle@[k],
        decreases n - j,
    {
        if hay[i + j] != needle[j] {
            proof {
                assert(hay@.subrange(i as int, i + n as int)[j as int] != needle@[j as int]);
            }
            return false;
        }
        j = j + 1;
    }
    proof {
        assert(hay@.subrange(i as int, i + n as int) =~= needle@);
    }
    true
}

/// Substring search, decided by scanning every position.
pub fn contains_chars(hay: &Vec<char>, needle: &Vec<char>) -> (r: bool)
    ensures
        r == contains_seq(hay@, needle@),
{
    if needle.len() > hay.len() {
        proof {
            assert(forall|i: int| !matches_at(hay@, needle@, i));
        }
        return false;
    }
    if needle.len() == 0 {
        proof {
            assert(hay@.subrange(0, 0) =~= needle@);
            assert(matches_at(hay@, needle@, 0));
        }
        return true;
    }
    let bound = hay.len() - needle.len();
    let mut i: usize = 0;
    while i <= bound
        invariant
            needle@.len() >= 1,
            hay@.len() <= usize::MAX,
            bound == hay@.len() - needle@.len(),
            i <= bound + 1,
            forall|k: int| 0 <= k < i ==> !matches_at(hay@, needle@, k),
        decreases bound + 1 - i,
    {
        if is_match_at(hay, needle, i) {
            return true;
        }
        i = i + 1;
    }
    proof {
        assert(forall|k: int| !matches_at(hay@, needle@, k));
    }
    false
}

/// Character-wise equality of two vectors.
pub fn chars_eq(a: &Vec<char>, b: &Vec<char>) -> (r: bool)
    ensures
        r == (a@ == b@),
{
    if a.len() != b.len() {
        return false;
    }
    let n = a.len();
    let mut i: usize = 0;
    while i < n
        invariant
            n == a@.len() == b@.len(),
            i <= n,
            forall|j: int| 0 <= j < i ==> a@[j] == b@[j],
        decreases n - i,
    {
        if a[i] != b[i] {
            return false;
        }
        i = i + 1;
    }
    proof {
        assert(a@ =~= b@);
    }
    true
}

pub fn starts_with_chars(hay: &Vec<char>, prefix: &Vec<char>) -> (r: bool)
    ensures
        r == starts_with(hay@, prefix@),
{
    if prefix.len() > hay.len() {
        return false;
    }
    is_match_at(hay, prefix, 0)
}

pub fn ends_with_chars(hay: &Vec<char>, suffix: &Vec<char>) -> (r: bool)
    ensures
        r == ends_with(hay@, suffix@),
{
    if suffix.len() > hay.len() {
        return false;
    }
    is_match_at(hay, suffix, hay.len() - suffix.len())
}

// ---------------------------------------------------------------------------
// Finding single characters
// ---------------------------------------------------------------------------

/// Index of the first occurrence of `c` in `s`.
pub open spec fn spec_find_char(s: Seq<char>, c: char) -> Option<int>
    decreases s.len(),
{
    if s.len() == 0 {
        None
    } else if s[0] == c {
        Some(0int)
    } else {
        match spec_find_char(s.skip(1), c) {
            None => None,
            Some(i) => Some(i + 1),
        }
    }
}

/// Index of the last occurrence of `c` in `s`.
pub open spec fn spec_rfind_char(s: Seq<char>, c: char) -> Option<int>
    decreases s.len(),
{
    if s.len() == 0 {
        None
    } else if s[s.len() - 1] == c {
        Some(s.len() - 1)
    } else {
        spec_rfind_char(s.drop_last(), c)
    }
}

/// `spec_find_char` returns the least index holding `c`, if any.
pub proof fn lemma_find_char(s: Seq<char>, c: char)
    ensures
        match spec_find_char(s, c) {
            Some(i) => 0 <= i < s.len() && s[i] == c && forall|j: int| 0 <= j < i ==> s[j] != c,
            None => forall|j: int| 0 <= j < s.len() ==> s[j] != c,
        },
    decreases s.len(),
{
    if s.len() > 0 && s[0] != c {
        lemma_find_char(s.skip(1), c);
        match spec_find_char(s.skip(1), c) {
            None => {
                assert forall|j: int| 0 <= j < s.len() implies s[j] != c by {
                    if j > 0 {
                        assert(s.skip(1)[j - 1] == s[j]);
                    }
                }
            },
            Some(i) => {
                assert(s.skip(1)[i] == s[i + 1]);
                assert forall|j: int| 0 <= j < i + 1 implies s[j] != c by {
                    if j > 0 {
                        assert(s.skip(1)[j - 1] == s[j]);
                    }
                }
            },
        }
    }
}

/// `spec_rfind_char` returns the greatest index holding `c`, if any.
pub proof fn lemma_rfind_char(s: Seq<char>, c: char)
    ensures
        match spec_rfind_char(s, c) {
            Some(i) => 0 <= i < s.len() && s[i] == c && forall|j: int| i < j < s.len() ==> s[j]
                != c,
            None => forall|j: int| 0 <= j < s.len() ==> s[j] != c,
        },
    decreases s.len(),
{
    if s.len() > 0 && s[s.len() - 1] != c {
        lemma_rfind_char(s.drop_last(), c);
        assert(forall|j: int| 0 <= j < s.len() - 1 ==> s.drop_last()[j] == s[j]);
    }
}

pub fn find_char(s: &Vec<char>, c: char) -> (r: Option<usize>)
    ensures
        r matches Some(i) ==> spec_find_char(s@, c) == Some(i as int),
        r is None ==> spec_find_char(s@, c) is None,
{
    proof {
        lemma_find_char(s@, c);
    }
    let n = s.len();
    let mut i: usize = 0;
    while i < n
        invariant
            n == s@.len(),
            i <= n,
            forall|j: int| 0 <= j < i ==> s@[j] != c,
            match spec_find_char(s@, c) {
                Some(k) => 0 <= k < s@.len() && s@[k] == c && forall|j: int|
                    0 <= j < k ==> s@[j] != c,
                None => forall|j: int| 0 <= j < s@.len() ==> s@[j] != c,
            },
        decreases n - i,
    {
        if s[i] == c {
            return Some(i);
        }
        i = i + 1;
    }
    None
}

pub fn rfind_char(s: &Vec<char>, c: char) -> (r: Option<usize>)
    ensures
        r matches Some(i) ==> spec_rfind_char(s@, c) == Some(i as int),
        r is None ==> spec_rfind_char(s@, c) is None,
{
    proof {
        lemma_rfind_char(s@, c);
    }
    let n = s.len();
    let mut i: usize = n;
    while i > 0
        invariant
            n == s@.len(),
            i <= n,
            forall|j: int| i <= j < n ==> s@[j] != c,
            match spec_rfind_char(s@, c) {
                Some(k) => 0 <= k < s@.len() && s@[k] == c && forall|j: int|
                    k < j < s@.len() ==> s@[j] != c,
                None => forall|j: int| 0 <= j < s@.len() ==> s@[j] != c,
            },
        decreases i,
    {
        i = i - 1;
        if s[i] == c {
            return Some(i);
        }
    }
    None
}

// ---------------------------------------------------------------------------
// Replacement
// ---------------------------------------------------------------------------

/// Left-to-right, non-overlapping replacement of `pat` by `repl`, as
/// `str::replace` performs it.
pub open spec fn spec_replace(s: Seq<char>, pat: Seq<char>, repl: Seq<char>) -> Seq<char>
    decreases s.len(),
{
    if pat.len() == 0 || s.len() < pat.len() {
        s
    } else if s.subrange(0, pat.len() as int) == pat {
        repl + spec_replace(s.skip(pat.len() as int), pat, repl)
    } else {
        seq![s[0]] + spec_replace(s.skip(1), pat, repl)
    }
}

/// Append `src` to `dst`.
pub fn push_chars(dst: &mut Vec<char>, src: &Vec<char>)
    ensures
        final(dst)@ == old(dst)@ + src@,
{
    let n = src.len();
    let mut i: usize = 0;
    while i < n
        invariant
            n == src@.len(),
            i <= n,
            dst@ == old(dst)@ + src@.subrange(0, i as int),
        decreases n - i,
    {
        dst.push(src[i]);
        proof {
            assert(dst@ =~= old(dst)@ + src@.subrange(0, i + 1));
        }
        i = i + 1;
    }
    proof {
        assert(dst@ =~= old(dst)@ + src@);
    }
}

/// Append a string slice's characters to `dst`.
pub fn push_str_chars(dst: &mut Vec<char>, src: &str)
    ensures
        final(dst)@ == old(dst)@ + src@,
{
    let n = src.unicode_len();
    let mut i: usize = 0;
    while i < n
        invariant
            n == src@.len(),
            i <= n,
            dst@ == old(dst)@ + src@.subrange(0, i as int),
        decreases n - i,
    {
        dst.push(src.get_char(i));
        proof {
            assert(dst@ =~= old(dst)@ + src@.subrange(0, i + 1));
        }
        i = i + 1;
    }
    proof {
        assert(dst@ =~= old(dst)@ + src@);
    }
}

/// Replace every non-overlapping occurrence of `pat`, scanning left to right.
pub fn replace_chars(s: &Vec<char>, pat: &Vec<char>, repl: &Vec<char>) -> (r: Vec<char>)
    requires
        pat@.len() > 0,
    ensures
        r@ == spec_replace(s@, pat@, repl@),
{
    let n = s.len();
    let mut out: Vec<char> = Vec::new();
    let mut i: usize = 0;
    proof {
        assert(s@.skip(0) =~= s@);
        assert(out@ + spec_replace(s@, pat@, repl@) =~= spec_replace(s@, pat@, repl@));
    }
    while i < n
        invariant
            n == s@.len(),
            i <= n,
            pat@.len() > 0,
            spec_replace(s@, pat@, repl@) == out@ + spec_replace(
                s@.skip(i as int),
                pat@,
                repl@,
            ),
        decreases n - i,
    {
        let ghost rest = s@.skip(i as int);
        if n - i >= pat.len() && is_match_at(s, pat, i) {
            proof {
                assert(rest.subrange(0, pat@.len() as int) =~= s@.subrange(
                    i as int,
                    i + pat@.len(),
                ));
                assert(rest.skip(pat@.len() as int) =~= s@.skip(i + pat@.len()));
            }
            push_chars(&mut out, repl);
            i = i + pat.len();
        } else {
            proof {
                if pat@.len() <= rest.len() {
                    assert(rest.subrange(0, pat@.len() as int) =~= s@.subrange(
                        i as int,
                        i + pat@.len(),
                    ));
                }
                assert(rest.skip(1) =~= s@.skip(i + 1));
                assert(rest[0] == s@[i as int]);
            }
            out.push(s[i]);
            i = i + 1;
        }
    }
    proof {
        assert(s@.skip(n as int) =~= Seq::<char>::empty());
        assert(out@ =~= out@ + spec_replace(s@.skip(n as int), pat@, repl@));
    }
    out
}

// ---------------------------------------------------------------------------
// Splitting on a separator
// ---------------------------------------------------------------------------

/// Split at every `sep`; n separators yield n+1 pieces, empty pieces
/// included.
pub open spec fn spec_split_char(s: Seq<char>, sep: char) -> Seq<Seq<char>>
    decreases s.len(),
{
    if s.len() == 0 {
        seq![Seq::<char>::empty()]
    } else if s[0] == sep {
        seq![Seq::<char>::empty()] + spec_split_char(s.skip(1), sep)
    } else {
        let rest = spec_split_char(s.skip(1), sep);
        seq![seq![s[0]] + rest[0]] + rest.skip(1)
    }
}

/// Splitting yields at least one piece.
pub proof fn lemma_split_char_nonempty(s: Seq<char>, sep: char)
    ensures
        spec_split_char(s, sep).len() >= 1,
    decreases s.len(),
{
    if s.len() > 0 {
        lemma_split_char_nonempty(s.skip(1), sep);
    }
}

/// Split a character sequence at every occurrence of `sep`.
pub fn split_char(s: &Vec<char>, sep: char) -> (r: Vec<Vec<char>>)
    ensures
        r.deep_view() == spec_split_char(s@, sep),
{
    let n = s.len();
    let mut done: Vec<Vec<char>> = Vec::new();
    let mut cur: Vec<char> = Vec::new();
    let mut i: usize = 0;
    proof {
        lemma_split_char_nonempty(s@, sep);
        assert(s@.skip(0) =~= s@);
        let r0 = spec_split_char(s@, sep);
        assert(done.deep_view() + (seq![cur@ + r0[0]] + r0.skip(1)) =~= seq![r0[0]] + r0.skip(
            1,
        ));
        assert(seq![r0[0]] + r0.skip(1) =~= r0);
    }
    while i < n
        invariant
            n == s@.len(),
            i <= n,
            spec_split_char(s@, sep) == done.deep_view() + ({
                let r = spec_split_char(s@.skip(i as int), sep);
                seq![cur@ + r[0]] + r.skip(1)
            }),
        decreases n - i,
    {
        let ghost rest = s@.skip(i as int);
        let ghost r_here = spec_split_char(rest, sep);
        let ghost r_next = spec_split_char(s@.skip(i + 1), sep);
        proof {
            lemma_split_char_nonempty(s@.skip(i + 1), sep);
            assert(rest[0] == s@[i as int]);
            assert(rest.skip(1) =~= s@.skip(i + 1));
        }
        if s[i] == sep {
            proof {
                assert(r_here =~= seq![Seq::<char>::empty()] + r_next);
                assert(r_here[0] =~= Seq::<char>::empty());
                assert(cur@ + r_here[0] =~= cur@);
                assert(r_here.skip(1) =~= r_next);
            }
            let ghost old_done = done.deep_view();
            let ghost old_cur = cur@;
            done.push(cur);
            cur = Vec::new();
            proof {
                assert(done.deep_view() =~~= old_done.push(old_cur));
                assert(old_done.push(old_cur) + (seq![cur@ + r_next[0]] + r_next.skip(1))
                    =~= old_done + (seq![old_cur] + (seq![r_next[0]] + r_next.skip(1))));
                assert(seq![r_next[0]] + r_next.skip(1) =~= r_next);
                assert(old_done + (seq![old_cur] + r_next) =~= old_done + (seq![old_cur + r_here[0]]
                    + r_here.skip(1)));
            }
        } else {
            proof {
                assert(r_here =~= seq![seq![s@[i as int]] + r_next[0]] + r_next.skip(1));
                assert(r_here[0] =~= seq![s@[i as int]] + r_next[0]);
                assert(r_here.skip(1) =~= r_next.skip(1));
            }
            let ghost old_cur = cur@;
            cur.push(s[i]);
            proof {
                assert(cur@ =~= old_cur + seq![s@[i as int]]);
                assert(cur@ + r_next[0] =~= old_cur + r_here[0]);
                assert(seq![cur@ + r_next[0]] + r_next.skip(1) =~= seq![old_cur + r_here[0]]
                    + r_here.skip(1));
            }
        }
        i = i + 1;
    }
    proof {
        assert(s@.skip(n as int) =~= Seq::<char>::empty());
        let r_end = spec_split_char(s@.skip(n as int), sep);
        assert(r_end =~= seq![Seq::<char>::empty()]);
        assert(cur@ + r_end[0] =~= cur@);
        assert(r_end.skip(1) =~= Seq::<Seq<char>>::empty());
        assert(done.deep_view() + (seq![cur@ + r_end[0]] + r_end.skip(1)) =~= done.deep_view()
            + seq![cur@]);
    }
    let ghost old_done = done.deep_view();
    let ghost old_cur = cur@;
    done.push(cur);
    proof {
        assert(done.deep_view() =~~= old_done.push(old_cur));
        assert(old_done.push(old_cur) =~= old_done + seq![old_cur]);
    }
    done
}

// ---------------------------------------------------------------------------
// Taking a prefix up to a delimiter
// ---------------------------------------------------------------------------

/// The characters of `s` before the first occurrence of `c` (all of `s` if
/// `c` does not occur).
pub open spec fn spec_until_char(s: Seq<char>, c: char) -> Seq<char>
    decreases s.len(),
{
    if s.len() == 0 {
        s
    } else if s[0] == c {
        Seq::empty()
    } else {
        seq![s[0]] + spec_until_char(s.skip(1), c)
    }
}

/// Collect the characters of `s[from..]` before the first occurrence of `c`.
pub fn until_char(s: &Vec<char>, from: usize, c: char) -> (r: Vec<char>)
    requires
        from <= s@.len(),
    ensures
        r@ == spec_until_char(s@.skip(from as int), c),
{
    let n = s.len();
    let mut cur: Vec<char> = Vec::new();
    let mut i: usize = from;
    proof {
        assert(cur@ + spec_until_char(s@.skip(from as int), c) =~= spec_until_char(
            s@.skip(from as int),
            c,
        ));
    }
    while i < n
        invariant
            n == s@.len(),
            from <= i <= n,
            spec_until_char(s@.skip(from as int), c) == cur@ + spec_until_char(
                s@.skip(i as int),
                c,
            ),
        decreases n - i,
    {
        let ghost rest = s@.skip(i as int);
        proof {
            assert(rest[0] == s@[i as int]);
            assert(rest.skip(1) =~= s@.skip(i + 1));
        }
        if s[i] == c {
            proof {
                assert(cur@ =~= cur@ + Seq::<char>::empty());
            }
            return cur;
        }
        cur.push(s[i]);
        i = i + 1;
    }
    proof {
        assert(s@.skip(n as int) =~= Seq::<char>::empty());
        assert(cur@ =~= cur@ + spec_until_char(s@.skip(n as int), c));
    }
    cur
}

// ---------------------------------------------------------------------------
// Trimming
// ---------------------------------------------------------------------------

/// The whitespace characters recognized when trimming.
pub open spec fn is_space_char(c: char) -> bool {
    c == ' ' || c == '\t' || c == '\n' || c == '\r'
}

pub fn is_space(c: char) -> (r: bool)
    ensures
        r == is_space_char(c),
{
    c == ' ' || c == '\t' || c == '\n' || c == '\r'
}

pub open spec fn spec_trim_start(s: Seq<char>) -> Seq<char>
    decreases s.len(),
{
    if s.len() > 0 && is_space_char(s[0]) {
        spec_trim_start(s.skip(1))
    } else {
        s
    }
}

pub open spec fn spec_trim_end(s: Seq<char>) -> Seq<char>
    decreases s.len(),
{
    if s.len() > 0 && is_space_char(s[s.len() - 1]) {
        spec_trim_end(s.drop_last())
    } else {
        s
    }
}

pub open spec fn spec_trim(s: Seq<char>) -> Seq<char> {
    spec_trim_end(spec_trim_start(s))
}

/// Dropping leading spaces one by one reaches the first non-space index.
pub proof fn lemma_trim_start_skip(s: Seq<char>, i: int)
    requires
        0 <= i <= s.len(),
        forall|j: int| 0 <= j < i ==> is_space_char(s[j]),
        i < s.len() ==> !is_space_char(s[i]),
    ensures
        spec_trim_start(s) == s.skip(i),
    decreases i,
{
    if i == 0 {
        assert(s.skip(0) =~= s);
    } else {
        lemma_trim_start_skip(s.skip(1), i - 1);
        assert(s.skip(1).skip(i - 1) =~= s.skip(i));
    }
}

/// Dropping trailing spaces one by one reaches the last non-space index.
pub proof fn lemma_trim_end_take(s: Seq<char>, i: int)
    requires
        0 <= i <= s.len(),
        forall|j: int| i <= j < s.len() ==> is_space_char(s[j]),
        i > 0 ==> !is_space_char(s[i - 1]),
    ensures
        spec_trim_end(s) == s.take(i),
    decreases s.len() - i,
{
    if i == s.len() {
        assert(s.take(i) =~= s);
    } else {
        lemma_trim_end_take(s.drop_last(), i);
        assert(s.drop_last() =~= s.take(s.len() - 1));
        assert(s.take(s.len() - 1).take(i) =~= s.take(i));
    }
}

/// How many leading whitespace characters trimming removes.
pub open spec fn trim_start_amount(s: Seq<char>) -> int {
    s.len() - spec_trim_start(s).len()
}

/// `spec_trim_start` drops exactly the leading whitespace run.
pub proof fn lemma_trim_start_shape(s: Seq<char>)
    ensures
        0 <= trim_start_amount(s) <= s.len(),
        spec_trim_start(s) == s.skip(trim_start_amount(s)),
        forall|j: int| 0 <= j < trim_start_amount(s) ==> is_space_char(s[j]),
        spec_trim_start(s).len() > 0 ==> !is_space_char(spec_trim_start(s)[0]),
    decreases s.len(),
{
    if s.len() > 0 && is_space_char(s[0]) {
        lemma_trim_start_shape(s.skip(1));
        let a = trim_start_amount(s);
        assert(s.skip(1).skip(a - 1) =~= s.skip(a));
        assert(forall|j: int| 1 <= j < a ==> s.skip(1)[j - 1] == s[j]);
    } else {
        assert(s.skip(0) =~= s);
    }
}

/// `spec_trim_end` drops exactly the trailing whitespace run.
pub proof fn lemma_trim_end_shape(s: Seq<char>)
    ensures
        0 <= spec_trim_end(s).len() <= s.len(),
        spec_trim_end(s) == s.take(spec_trim_end(s).len() as int),
        forall|j: int| spec_trim_end(s).len() <= j < s.len() ==> is_space_char(s[j]),
        spec_trim_end(s).len() > 0 ==> !is_space_char(s[spec_trim_end(s).len() - 1]),
    decreases s.len(),
{
    if s.len() > 0 && is_space_char(s[s.len() - 1]) {
        lemma_trim_end_shape(s.drop_last());
        let m = spec_trim_end(s).len() as int;
        assert(s.drop_last().take(m) =~= s.take(m));
        assert(forall|j: int| 0 <= j < s.len() - 1 ==> s.drop_last()[j] == s[j]);
        if m > 0 {
            assert(s.drop_last()[m - 1] == s[m - 1]);
        }
    } else {
        assert(s.take(s.len() as int) =~= s);
    }
}

/// `spec_trim` keeps exactly the subrange between the whitespace runs at the
/// two ends.
pub proof fn lemma_trim_shape(s: Seq<char>)
    ensures
        0 <= trim_start_amount(s),
        trim_start_amount(s) + spec_trim(s).len() <= s.len(),
        spec_trim(s) == s.subrange(
            trim_start_amount(s),
            trim_start_amount(s) + spec_trim(s).len(),
        ),
        forall|j: int| 0 <= j < trim_start_amount(s) ==> is_space_char(s[j]),
        forall|j: int|
            trim_start_amount(s) + spec_trim(s).len() <= j < s.len() ==> is_space_char(s[j]),
        spec_trim(s).len() > 0 ==> !is_space_char(s[trim_start_amount(s)]) && !is_space_char(
            s[trim_start_amount(s) + spec_trim(s).len() - 1],
        ),
{
    lemma_trim_start_shape(s);
    let a = trim_start_amount(s);
    let u = spec_trim_start(s);
    lemma_trim_end_shape(u);
    let t = spec_trim(s);
    assert(u.take(t.len() as int) =~= s.subrange(a, a + t.len()));
    assert(forall|j: int| 0 <= j < u.len() ==> u[j] == s[j + a]);
    assert forall|j: int| a + t.len() <= j < s.len() implies is_space_char(s[j]) by {
        assert(u[j - a] == s[j]);
    }
}

/// Copy of `s[from..to]`.
pub fn copy_range(s: &Vec<char>, from: usize, to: usize) -> (r: Vec<char>)
    requires
        from <= to <= s@.len(),
    ensures
        r@ == s@.subrange(from as int, to as int),
{
    let mut r: Vec<char> = Vec::new();
    let mut i: usize = from;
    while i < to
        invariant
            from <= i <= to <= s@.len(),
            r@ == s@.subrange(from as int, i as int),
        decreases to - i,
    {
        r.push(s[i]);
        proof {
            assert(r@ =~= s@.subrange(from as int, i + 1));
        }
        i = i + 1;
    }
    r
}

/// Remove leading and trailing whitespace.
pub fn trim_chars(s: &Vec<char>) -> (r: Vec<char>)
    ensures
        r@ == spec_trim(s@),
{
    let n = s.len();
    let mut a: usize = 0;
    while a < n && is_space(s[a])
        invariant
            n == s@.len(),
            a <= n,
            forall|j: int| 0 <= j < a ==> is_space_char(s@[j]),
        decreases n - a,
    {
        a = a + 1;
    }
    proof {
        lemma_trim_start_skip(s@, a as int);
    }
    let ghost t = s@.skip(a as int);
    let mut b: usize = n;
    while b > a && is_space(s[b - 1])
        invariant
            n == s@.len(),
            a <= b <= n,
            forall|j: int| b <= j < n ==> is_space_char(s@[j]),
        decreases b,
    {
        b = b - 1;
    }
    proof {
        assert forall|j: int| (b - a) <= j < t.len() implies is_space_char(t[j]) by {
            assert(t[j] == s@[j + a]);
        }
        if b > a {
            assert(t[b - a - 1] == s@[b - 1]);
        }
        lemma_trim_end_take(t, b - a);
        assert(t.take(b - a) =~= s@.subrange(a as int, b as int));
    }
    copy_range(s, a, b)
}

// ---------------------------------------------------------------------------
// Joining
// ---------------------------------------------------------------------------

/// Join pieces with a separator.
pub open spec fn spec_join(parts: Seq<Seq<char>>, sep: Seq<char>) -> Seq<char>
    decreases parts.len(),
{
    if parts.len() == 0 {
        Seq::empty()
    } else if parts.len() == 1 {
        parts[0]
    } else {
        spec_join(parts.drop_last(), sep) + sep + parts.last()
    }
}

/// Join the strings of `v` with `sep`.
pub fn join_strings(v: &Vec<String>, sep: &str) -> (r: Vec<char>)
    ensures
        r@ == spec_join(v.deep_view(), sep@),
{
    let ghost vm = v.deep_view();
    let n = v.len();
    let mut out: Vec<char> = Vec::new();
    let mut i: usize = 0;
    while i < n
        invariant
            n == v@.len(),
            vm == v.deep_view(),
            i <= n,
            i == 0 ==> out@ == Seq::<char>::empty(),
            i > 0 ==> out@ == spec_join(vm.take(i as int), sep@),
        decreases n - i,
    {
        proof {
            assert(vm[i as int] == v@[i as int]@);
        }
        if i == 0 {
            push_str_chars(&mut out, v[0].as_str());
            proof {
                assert(vm.take(1).len() == 1);
                assert(vm.take(1)[0] == vm[0]);
                assert(out@ =~= spec_join(vm.take(1), sep@));
            }
        } else {
            push_str_chars(&mut out, sep);
            push_str_chars(&mut out, v[i].as_str());
            proof {
                assert(vm.take(i + 1).drop_last() =~= vm.take(i as int));
                assert(vm.take(i + 1).last() == vm[i as int]);
                assert(out@ =~= spec_join(vm.take(i + 1), sep@));
            }
        }
        i = i + 1;
    }
    proof {
        if n > 0 {
            assert(vm.take(n as int) =~= vm);
        }
    }
    out
}

// ---------------------------------------------------------------------------
// How replacement acts on concatenations
// ---------------------------------------------------------------------------

/// When no occurrence of `pat` starts inside `x`, replacement distributes
/// over the concatenation `x + y`.
pub proof fn lemma_replace_concat_skip(x: Seq<char>, y: Seq<char>, pat: Seq<char>, repl: Seq<char>)
    requires
        pat.len() > 0,
        forall|j: int| 0 <= j < x.len() ==> !matches_at(x + y, pat, j),
    ensures
        spec_replace(x + y, pat, repl) == x + spec_replace(y, pat, repl),
    decreases x.len(),
{
    let s = x + y;
    if x.len() == 0 {
        assert(s =~= y);
        assert(x + spec_replace(y, pat, repl) =~= spec_replace(y, pat, repl));
    } else if s.len() < pat.len() {
        assert(y.len() < pat.len());
        assert(spec_replace(s, pat, repl) == s);
        assert(spec_replace(y, pat, repl) == y);
    } else {
        assert(!matches_at(s, pat, 0));
        assert(s.subrange(0, pat.len() as int) != pat);
        let x1 = x.skip(1);
        assert(s.skip(1) =~= x1 + y);
        assert forall|j: int| 0 <= j < x1.len() implies !matches_at(x1 + y, pat, j) by {
            if matches_at(x1 + y, pat, j) {
                assert((x1 + y).subrange(j, j + pat.len() as int) =~= s.subrange(
                    j + 1,
                    j + 1 + pat.len() as int,
                ));
                assert(matches_at(s, pat, j + 1));
            }
        }
        lemma_replace_concat_skip(x1, y, pat, repl);
        assert(s[0] == x[0]);
        assert(seq![s[0]] + (x1 + spec_replace(y, pat, repl)) =~= x + spec_replace(
            y,
            pat,
            repl,
        ));
    }
}

/// A pattern free of newlines and absent from `x` cannot start inside `x`
/// when `x` is followed by text that begins with a newline.
pub proof fn lemma_no_match_in_prefix(x: Seq<char>, y: Seq<char>, pat: Seq<char>)
    requires
        pat.len() > 0,
        !contains_seq(x, pat),
        forall|k: int| 0 <= k < pat.len() ==> pat[k] != '\n',
        y.len() > 0 ==> y[0] == '\n',
    ensures
        forall|j: int| 0 <= j < x.len() ==> !matches_at(x + y, pat, j),
{
    let s = x + y;
    assert forall|j: int| 0 <= j < x.len() implies !matches_at(s, pat, j) by {
        if matches_at(s, pat, j) {
            if j + pat.len() <= x.len() {
                assert(s.subrange(j, j + pat.len() as int) =~= x.subrange(
                    j,
                    j + pat.len() as int,
                ));
                assert(matches_at(x, pat, j));
            } else {
                let off = x.len() - j;
                assert(0 < off < pat.len());
                assert(pat[off as int] == s.subrange(j, j + pat.len() as int)[off as int]);
                assert(s[x.len() as int] == y[0]);
            }
        }
    }
}

/// Replacement keeps a leading character that does not begin the pattern.
pub proof fn lemma_replace_head(s: Seq<char>, pat: Seq<char>, repl: Seq<char>)
    requires
        pat.len() > 0,
        s.len() > 0,
        s[0] != pat[0],
    ensures
        spec_replace(s, pat, repl).len() > 0,
        spec_replace(s, pat, repl)[0] == s[0],
{
    if s.len() < pat.len() {
    } else {
        assert(s.subrange(0, pat.len() as int)[0] == s[0]);
        assert(s.subrange(0, pat.len() as int) != pat);
        assert((seq![s[0]] + spec_replace(s.skip(1), pat, repl))[0] == s[0]);
    }
}

// ---------------------------------------------------------------------------
// Trimming a specific character
// ---------------------------------------------------------------------------

pub open spec fn spec_trim_start_matches(s: Seq<char>, c: char) -> Seq<char>
    decreases s.len(),
{
    if s.len() > 0 && s[0] == c {
        spec_trim_start_matches(s.skip(1), c)
    } else {
        s
    }
}

pub open spec fn spec_trim_end_matches(s: Seq<char>, c: char) -> Seq<char>
    decreases s.len(),
{
    if s.len() > 0 && s[s.len() - 1] == c {
        spec_trim_end_matches(s.drop_last(), c)
    } else {
        s
    }
}

/// Dropping leading `c`s one by one reaches the first differing index.
pub proof fn lemma_trim_start_matches_skip(s: Seq<char>, c: char, i: int)
    requires
        0 <= i <= s.len(),
        forall|j: int| 0 <= j < i ==> s[j] == c,
        i < s.len() ==> s[i] != c,
    ensures
        spec_trim_start_matches(s, c) == s.skip(i),
    decreases i,
{
    if i == 0 {
        assert(s.skip(0) =~= s);
    } else {
        lemma_trim_start_matches_skip(s.skip(1), c, i - 1);
        assert(s.skip(1).skip(i - 1) =~= s.skip(i));
    }
}

/// Dropping trailing `c`s one by one reaches the last differing index.
pub proof fn lemma_trim_end_matches_take(s: Seq<char>, c: char, i: int)
    requires
        0 <= i <= s.len(),
        forall|j: int| i <= j < s.len() ==> s[j] == c,
        i > 0 ==> s[i - 1] != c,
    ensures
        spec_trim_end_matches(s, c) == s.take(i),
    decreases s.len() - i,
{
    if i == s.len() {
        assert(s.take(i) =~= s);
    } else {
        lemma_trim_end_matches_take(s.drop_last(), c, i);
        assert(s.drop_last() =~= s.take(s.len() - 1));
        assert(s.take(s.len() - 1).take(i) =~= s.take(i));
    }
}

/// Remove every leading occurrence of `c`.
pub fn trim_start_matches_chars(s: &Vec<char>, c: char) -> (r: Vec<char>)
    ensures
        r@ == spec_trim_start_matches(s@, c),
{
    let n = s.len();
    let mut a: usize = 0;
    while a < n && s[a] == c
        invariant
            n == s@.len(),
            a <= n,
            forall|j: int| 0 <= j < a ==> s@[j] == c,
        decreases n - a,
    {
        a = a + 1;
    }
    proof {
        lemma_trim_start_matches_skip(s@, c, a as int);
        assert(s@.skip(a as int) =~= s@.subrange(a as int, n as int));
    }
    copy_range(s, a, n)
}

/// Remove every trailing occurrence of `c`.
pub fn trim_end_matches_chars(s: &Vec<char>, c: char) -> (r: Vec<char>)
    ensures
        r@ == spec_trim_end_matches(s@, c),
{
    let n = s.len();
    let mut b: usize = n;
    while b > 0 && s[b - 1] == c
        invariant
            n == s@.len(),
            b <= n,
            forall|j: int| b <= j < n ==> s@[j] == c,
        decreases b,
    {
        b = b - 1;
    }
    proof {
        lemma_trim_end_matches_take(s@, c, b as int);
        assert(s@.take(b as int) =~= s@.subrange(0, b as int));
    }
    copy_range(s, 0, b)
}

// ---------------------------------------------------------------------------
// Decimal rendering
// ---------------------------------------------------------------------------

/// The decimal digit character for `d`.
pub open spec fn dec_digit(d: int) -> char {
    if d == 0 {
        '0'
    } else if d == 1 {
        '1'
    } else if d == 2 {
        '2'
    } else if d == 3 {
        '3'
    } else if d == 4 {
        '4'
    } else if d == 5 {
        '5'
    } else if d == 6 {
        '6'
    } else if d == 7 {
        '7'
    } else if d == 8 {
        '8'
    } else {
        '9'
    }
}

/// Decimal rendering of a non-negative integer, most significant digit first.
pub open spec fn spec_dec(n: int) -> Seq<char>
    decreases n,
{
    if n < 10 {
        seq![dec_digit(n)]
    } else {
        spec_dec(n / 10) + seq![dec_digit(n % 10)]
    }
}

fn dec_digit_char(d: u64) -> (c: char)
    requires
        d < 10,
    ensures
        c == dec_digit(d as int),
{
    if d == 0 {
        '0'
    } else if d == 1 {
        '1'
    } else if d == 2 {
        '2'
    } else if d == 3 {
        '3'
    } else if d == 4 {
        '4'
    } else if d == 5 {
        '5'
    } else if d == 6 {
        '6'
    } else if d == 7 {
        '7'
    } else if d == 8 {
        '8'
    } else {
        '9'
    }
}

/// Render `n` in decimal.
pub fn u64_to_dec_chars(n: u64) -> (r: Vec<char>)
    ensures
        r@ == spec_dec(n as int),
    decreases n,
{
    if n < 10 {
        let mut r: Vec<char> = Vec::new();
        r.push(dec_digit_char(n));
        proof {
            assert(r@ =~= spec_dec(n as int));
        }
        r
    } else {
        let mut r = u64_to_dec_chars(n / 10);
        r.push(dec_digit_char(n % 10));
        proof {
            assert(r@ =~= spec_dec(n as int));
        }
        r
    }
}

/// Render `n` in decimal.
pub fn usize_to_dec_chars(n: usize) -> (r: Vec<char>)
    ensures
        r@ == spec_dec(n as int),
{
    u64_to_dec_chars(n as u64)
}

// ---------------------------------------------------------------------------
// Conversions between strings and character vectors
// ---------------------------------------------------------------------------

/// Collect a string's characters into a vector.
pub fn str_to_chars(s: &str) -> (r: Vec<char>)
    ensures
        r@ == s@,
{
    let n = s.unicode_len();
    let mut r: Vec<char> = Vec::new();
    let mut i: usize = 0;
    while i < n
        invariant
            n == s@.len(),
            i <= n,
            r@ == s@.subrange(0, i as int),
        decreases n - i,
    {
        r.push(s.get_char(i));
        proof {
            assert(r@ =~= s@.subrange(0, i + 1));
        }
        i = i + 1;
    }
    proof {
        assert(r@ =~= s@);
    }
    r
}

/// Relies on `String: FromIterator<char>`: collecting characters yields the
/// string made of exactly those characters in order.
#[verifier::external_body]
pub fn chars_to_string(v: &Vec<char>) -> (r: String)
    ensures
        r@ == v@,
{
    v.iter().collect()
}

} // verus!
