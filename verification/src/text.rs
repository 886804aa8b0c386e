//! Character-sequence primitives shared by the parsing components:
//! splitting on a separator character, whitespace tokenization, and
//! trimming. Each executable function is specified against a recursive
//! mathematical model over `Seq<char>`.

use vstd::prelude::*;

verus! {

/// ASCII whitespace, as found between the tokens of a status line.
pub open spec fn is_space(c: char) -> bool {
    c == ' ' || c == '\t' || c == '\n' || c == '\r'
}

/// A token boundary: the NUL separator that the kernel writes between
/// command-line arguments, or whitespace.
pub open spec fn is_sep(c: char) -> bool {
    c == '\0' || is_space(c)
}

/// Executable test matching `is_space`.
pub fn space_char(c: char) -> (r: bool)
    ensures
        r == is_space(c),
{
    c == ' ' || c == '\t' || c == '\n' || c == '\r'
}

/// Executable test matching `is_sep`.
pub fn sep_char(c: char) -> (r: bool)
    ensures
        r == is_sep(c),
{
    c == '\0' || space_char(c)
}

/// Length of the maximal separator-free prefix of `s`.
pub open spec fn token_len(s: Seq<char>) -> int
    decreases s.len(),
{
    if s.len() == 0 || is_sep(s[0]) {
        0
    } else {
        1 + token_len(s.drop_first())
    }
}

pub proof fn lemma_token_len_bounds(s: Seq<char>)
    ensures
        0 <= token_len(s) <= s.len(),
        forall|j: int| 0 <= j < token_len(s) ==> !is_sep(s[j]),
        token_len(s) < s.len() ==> is_sep(s[token_len(s)]),
    decreases s.len(),
{
    if s.len() == 0 || is_sep(s[0]) {
    } else {
        lemma_token_len_bounds(s.drop_first());
        assert(forall|j: int| 0 <= j < token_len(s) ==> !is_sep(s[j])) by {
            assert(forall|j: int| 1 <= j < token_len(s) ==> s[j] == s.drop_first()[j - 1]);
        }
    }
}

/// The separator-delimited tokens of `s`, in order, with empty tokens
/// dropped: the shape of a tokenized command-line record, and of the
/// whitespace-delimited fields of one status line.
pub open spec fn spec_tokens(s: Seq<char>) -> Seq<Seq<char>>
    decreases s.len(),
    via spec_tokens_decreases
{
    if s.len() == 0 {
        Seq::empty()
    } else if is_sep(s[0]) {
        spec_tokens(s.drop_first())
    } else {
        seq![s.take(token_len(s))] + spec_tokens(s.skip(token_len(s)))
    }
}

#[via_fn]
proof fn spec_tokens_decreases(s: Seq<char>) {
    if s.len() > 0 && !is_sep(s[0]) {
        lemma_token_len_bounds(s);
    }
}

/// Index of the first occurrence of `sep` in `s`, or `s.len()` if none.
pub open spec fn sep_pos(s: Seq<char>, sep: char) -> int
    decreases s.len(),
{
    if s.len() == 0 {
        0
    } else if s[0] == sep {
        0
    } else {
        1 + sep_pos(s.drop_first(), sep)
    }
}

pub proof fn lemma_sep_pos_bounds(s: Seq<char>, sep: char)
    ensures
        0 <= sep_pos(s, sep) <= s.len(),
        forall|j: int| 0 <= j < sep_pos(s, sep) ==> s[j] != sep,
        sep_pos(s, sep) < s.len() ==> s[sep_pos(s, sep)] == sep,
    decreases s.len(),
{
    if s.len() == 0 || s[0] == sep {
    } else {
        lemma_sep_pos_bounds(s.drop_first(), sep);
        assert(forall|j: int| 1 <= j < sep_pos(s, sep) ==> s[j] == s.drop_first()[j - 1]);
    }
}

/// The segments of `s` between occurrences of `sep`, in order, empty
/// segments kept: the shape of the lines of a status blob (separator
/// `'\n'`) and of a security-context string (separator `':'`).
pub open spec fn spec_split(s: Seq<char>, sep: char) -> Seq<Seq<char>>
    decreases s.len(),
    via spec_split_decreases
{
    if sep_pos(s, sep) == s.len() {
        seq![s]
    } else {
        seq![s.take(sep_pos(s, sep))] + spec_split(s.skip(sep_pos(s, sep) + 1), sep)
    }
}

#[via_fn]
proof fn spec_split_decreases(s: Seq<char>, sep: char) {
    lemma_sep_pos_bounds(s, sep);
}

/// `s` with its leading whitespace removed.
pub open spec fn spec_trim_front(s: Seq<char>) -> Seq<char>
    decreases s.len(),
{
    if s.len() > 0 && is_space(s[0]) {
        spec_trim_front(s.drop_first())
    } else {
        s
    }
}

/// `s` with its trailing whitespace removed.
pub open spec fn spec_trim_back(s: Seq<char>) -> Seq<char>
    decreases s.len(),
{
    if s.len() > 0 && is_space(s.last()) {
        spec_trim_back(s.drop_last())
    } else {
        s
    }
}

/// `s` with surrounding whitespace removed.
pub open spec fn spec_trim(s: Seq<char>) -> Seq<char> {
    spec_trim_back(spec_trim_front(s))
}

/// A separator-free run of length `k` followed by a separator (or the end)
/// pins down `token_len`.
proof fn lemma_token_len_determined(t: Seq<char>, k: int)
    requires
        0 <= k <= t.len(),
        forall|j: int| 0 <= j < k ==> !is_sep(t[j]),
        k == t.len() || is_sep(t[k]),
    ensures
        token_len(t) == k,
    decreases k,
{
    if k == 0 {
    } else {
        assert(forall|j: int| 0 <= j < k - 1 ==> t.drop_first()[j] == t[j + 1]);
        lemma_token_len_determined(t.drop_first(), k - 1);
    }
}

/// A separator-free run of length `k` followed by the separator (or the
/// end) pins down `sep_pos`.
proof fn lemma_sep_pos_determined(t: Seq<char>, sep: char, k: int)
    requires
        0 <= k <= t.len(),
        forall|j: int| 0 <= j < k ==> t[j] != sep,
        k == t.len() || t[k] == sep,
    ensures
        sep_pos(t, sep) == k,
    decreases k,
{
    if k == 0 {
    } else {
        assert(forall|j: int| 0 <= j < k - 1 ==> t.drop_first()[j] == t[j + 1]);
        lemma_sep_pos_determined(t.drop_first(), sep, k - 1);
    }
}

/// A whitespace run of length `a` followed by a non-space (or the end)
/// pins down `spec_trim_front`.
proof fn lemma_trim_front_determined(t: Seq<char>, a: int)
    requires
        0 <= a <= t.len(),
        forall|j: int| 0 <= j < a ==> is_space(t[j]),
        a == t.len() || !is_space(t[a]),
    ensures
        spec_trim_front(t) == t.skip(a),
    decreases a,
{
    if a == 0 {
        assert(t.skip(0) =~= t);
    } else {
        assert(forall|j: int| 0 <= j < a - 1 ==> t.drop_first()[j] == t[j + 1]);
        lemma_trim_front_determined(t.drop_first(), a - 1);
        assert(t.drop_first().skip(a - 1) =~= t.skip(a));
    }
}

/// A trailing whitespace run starting at `b` (with a non-space just before,
/// or nothing at all before) pins down `spec_trim_back`.
proof fn lemma_trim_back_determined(t: Seq<char>, b: int)
    requires
        0 <= b <= t.len(),
        forall|j: int| b <= j < t.len() ==> is_space(t[j]),
        b == 0 || !is_space(t[b - 1]),
    ensures
        spec_trim_back(t) == t.take(b),
    decreases t.len() - b,
{
    if b == t.len() {
        if t.len() > 0 && is_space(t.last()) {
        } else {
            assert(t.take(b) =~= t);
        }
    } else {
        lemma_trim_back_determined(t.drop_last(), b);
        assert(t.drop_last().take(b) =~= t.take(b));
    }
}

/// Exact character-wise string equality.
pub fn str_equal(a: &str, b: &str) -> (r: bool)
    ensures
        r == (a@ == b@),
{
    let na = a.unicode_len();
    let nb = b.unicode_len();
    if na != nb {
        return false;
    }
    let mut i: usize = 0;
    while i < na
        invariant
            na == a@.len(),
            na == b@.len(),
            i <= na,
            forall|j: int| 0 <= j < i ==> a@[j] == b@[j],
        decreases na - i,
    {
        if a.get_char(i) != b.get_char(i) {
            return false;
        }
        i += 1;
    }
    proof {
        assert(a@ =~= b@);
    }
    true
}

/// Splits `s` into the separator-delimited tokens of `spec_tokens`,
/// dropping empty tokens.
pub fn tokenize(s: &str) -> (r: Vec<String>)
    ensures
        r.deep_view() == spec_tokens(s@),
{
    let n = s.unicode_len();
    let mut out: Vec<String> = Vec::new();
    let mut i: usize = 0;
    proof {
        assert(out.deep_view() =~= Seq::<Seq<char>>::empty());
        assert(s@.skip(0) =~= s@);
        assert(out.deep_view() + spec_tokens(s@) =~= spec_tokens(s@));
    }
    while i < n
        invariant
            n == s@.len(),
            i <= n,
            out.deep_view() + spec_tokens(s@.skip(i as int)) == spec_tokens(s@),
        decreases n - i,
    {
        if sep_char(s.get_char(i)) {
            proof {
                assert(s@.skip(i as int).drop_first() =~= s@.skip(i as int + 1));
            }
            i += 1;
        } else {
            let start: usize = i;
            let mut j: usize = i + 1;
            while j < n && !sep_char(s.get_char(j))
                invariant
                    n == s@.len(),
                    start < j <= n,
                    forall|m: int| start <= m < j ==> !is_sep(s@[m]),
                decreases n - j,
            {
                j += 1;
            }
            let tok = s.substring_char(start, j).to_owned();
            proof {
                let suffix = s@.skip(start as int);
                assert(forall|m: int| 0 <= m < j - start ==> suffix[m] == s@[m + start]);
                lemma_token_len_determined(suffix, j - start as int);
                assert(suffix.take(j - start as int) =~= s@.subrange(start as int, j as int));
                assert(suffix.skip(j - start as int) =~= s@.skip(j as int));
                assert(spec_tokens(suffix) == seq![tok@] + spec_tokens(s@.skip(j as int)));
            }
            let ghost prev = out.deep_view();
            out.push(tok);
            proof {
                assert(out.deep_view() =~= prev.push(tok@));
                assert(prev.push(tok@) + spec_tokens(s@.skip(j as int)) =~= prev + spec_tokens(s@.skip(start as int)));
            }
            i = j;
        }
    }
    proof {
        assert(s@.skip(n as int) =~= Seq::<char>::empty());
        assert(out.deep_view() + spec_tokens(Seq::<char>::empty()) =~= out.deep_view());
    }
    out
}

/// Splits `s` at every occurrence of `sep`, keeping empty segments, as
/// `spec_split` describes.
pub fn split_char(s: &str, sep: char) -> (r: Vec<String>)
    ensures
        r.deep_view() == spec_split(s@, sep),
{
    let n = s.unicode_len();
    let mut out: Vec<String> = Vec::new();
    let mut start: usize = 0;
    let mut j: usize = 0;
    proof {
        assert(out.deep_view() =~= Seq::<Seq<char>>::empty());
        assert(s@.skip(0) =~= s@);
        assert(out.deep_view() + spec_split(s@, sep) =~= spec_split(s@, sep));
    }
    while j < n
        invariant
            n == s@.len(),
            start <= j <= n,
            forall|m: int| start <= m < j ==> s@[m] != sep,
            out.deep_view() + spec_split(s@.skip(start as int), sep) == spec_split(s@, sep),
        decreases n - j,
    {
        if s.get_char(j) == sep {
            let seg = s.substring_char(start, j).to_owned();
            proof {
                let suffix = s@.skip(start as int);
                assert(forall|m: int| 0 <= m < j - start ==> suffix[m] == s@[m + start]);
                lemma_sep_pos_determined(suffix, sep, j - start as int);
                assert(suffix.take(j - start as int) =~= s@.subrange(start as int, j as int));
                assert(suffix.skip(j - start as int + 1) =~= s@.skip(j as int + 1));
                assert(spec_split(suffix, sep) == seq![seg@] + spec_split(s@.skip(j as int + 1), sep));
            }
            let ghost prev = out.deep_view();
            out.push(seg);
            proof {
                assert(out.deep_view() =~= prev.push(seg@));
                assert(prev.push(seg@) + spec_split(s@.skip(j as int + 1), sep) =~= prev + spec_split(s@.skip(start as int), sep));
            }
            start = j + 1;
            j = j + 1;
        } else {
            j += 1;
        }
    }
    let seg = s.substring_char(start, n).to_owned();
    proof {
        let suffix = s@.skip(start as int);
        assert(forall|m: int| 0 <= m < n - start ==> suffix[m] == s@[m + start]);
        lemma_sep_pos_determined(suffix, sep, n - start as int);
        assert(suffix =~= s@.subrange(start as int, n as int));
        assert(spec_split(suffix, sep) == seq![seg@]);
    }
    let ghost prev = out.deep_view();
    out.push(seg);
    proof {
        assert(out.deep_view() =~= prev.push(seg@));
        assert(prev.push(seg@) =~= prev + spec_split(s@.skip(start as int), sep));
    }
    out
}

/// Whether `pat` occurs in `s` as a contiguous run of characters.
pub open spec fn spec_contains(s: Seq<char>, pat: Seq<char>) -> bool {
    exists|k: int| 0 <= k <= s.len() - pat.len() && #[trigger] s.subrange(k, k + pat.len()) == pat
}

/// Whether `pat` stands in `s` at position `k`, character for character.
fn match_at(s: &str, pat: &str, k: usize) -> (r: bool)
    requires
        k + pat@.len() <= s@.len() <= usize::MAX,
    ensures
        r == (s@.subrange(k as int, k as int + pat@.len()) == pat@),
{
    let m = pat.unicode_len();
    let mut j: usize = 0;
    while j < m
        invariant
            m == pat@.len(),
            k + m <= s@.len() <= usize::MAX,
            j <= m,
            forall|t: int| 0 <= t < j ==> s@[k + t] == pat@[t],
        decreases m - j,
    {
        if s.get_char(k + j) != pat.get_char(j) {
            proof {
                assert(s@.subrange(k as int, k as int + m as int)[j as int] == s@[k + j]);
            }
            return false;
        }
        j += 1;
    }
    proof {
        assert(s@.subrange(k as int, k as int + m as int) =~= pat@);
    }
    true
}

/// Whether the pattern occurs anywhere in `s`: the name filter used when
/// searching processes by name.
pub fn contains_str(s: &str, pat: &str) -> (r: bool)
    ensures
        r == spec_contains(s@, pat@),
{
    let n = s.unicode_len();
    let m = pat.unicode_len();
    if m > n {
        return false;
    }
    if m == 0 {
        proof {
            let z: int = 0;
            assert(s@.subrange(z, z + pat@.len()) =~= pat@);
        }
        return true;
    }
    let mut k: usize = 0;
    while k <= n - m
        invariant
            n == s@.len(),
            m == pat@.len(),
            1 <= m <= n,
            k <= n - m + 1,
            forall|k2: int| 0 <= k2 < k ==> #[trigger] s@.subrange(k2, k2 + m as int) != pat@,
        decreases n - m - k + 1,
    {
        if match_at(s, pat, k) {
            return true;
        }
        k += 1;
    }
    false
}

/// Removes surrounding whitespace, as `spec_trim` describes.
pub fn trim_str(s: &str) -> (r: String)
    ensures
        r@ == spec_trim(s@),
{
    let n = s.unicode_len();
    let mut a: usize = 0;
    while a < n && space_char(s.get_char(a))
        invariant
            n == s@.len(),
            a <= n,
            forall|j: int| 0 <= j < a ==> is_space(s@[j]),
        decreases n - a,
    {
        a += 1;
    }
    let mut b: usize = n;
    while b > a && space_char(s.get_char(b - 1))
        invariant
            n == s@.len(),
            a <= b <= n,
            forall|j: int| b <= j < n ==> is_space(s@[j]),
        decreases b,
    {
        b -= 1;
    }
    let r = s.substring_char(a, b).to_owned();
    proof {
        lemma_trim_front_determined(s@, a as int);
        let front = s@.skip(a as int);
        assert(forall|m: int| 0 <= m < front.len() ==> front[m] == s@[m + a]);
        lemma_trim_back_determined(front, b - a as int);
        assert(front.take(b - a as int) =~= s@.subrange(a as int, b as int));
    }
    r
}

} // verus!
