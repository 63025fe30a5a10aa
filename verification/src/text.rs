//! Small verified string utilities: whitespace trimming, equality and prefix
//! tests on `&str`, stated over the character-sequence views of the strings.

use vstd::prelude::*;

verus! {

/// The whitespace characters that trimming removes.
pub open spec fn is_space_char(c: char) -> bool {
    c == ' ' || c == '\t' || c == '\r' || c == '\n'
}

/// `s` with its leading whitespace removed.
pub open spec fn trim_start_spec(s: Seq<char>) -> Seq<char>
    decreases s.len(),
{
    if s.len() > 0 && is_space_char(s[0]) {
        trim_start_spec(s.drop_first())
    } else {
        s
    }
}

/// `s` with its trailing whitespace removed.
pub open spec fn trim_end_spec(s: Seq<char>) -> Seq<char>
    decreases s.len(),
{
    if s.len() > 0 && is_space_char(s.last()) {
        trim_end_spec(s.drop_last())
    } else {
        s
    }
}

/// `s` with both leading and trailing whitespace removed.
pub open spec fn trim_spec(s: Seq<char>) -> Seq<char> {
    trim_end_spec(trim_start_spec(s))
}

/// The views of a sequence of strings.
pub open spec fn views_of(v: Seq<String>) -> Seq<Seq<char>> {
    v.map_values(|s: String| s@)
}

/// If the first `i` characters of `s` are whitespace and the next one (if any)
/// is not, trimming the start of `s` drops exactly those `i` characters.
proof fn lemma_trim_start_at(s: Seq<char>, i: int)
    requires
        0 <= i <= s.len(),
        forall|k: int| 0 <= k < i ==> is_space_char(s[k]),
        i < s.len() ==> !is_space_char(s[i]),
    ensures
        trim_start_spec(s) =~= s.subrange(i, s.len() as int),
    decreases i,
{
    if i == 0 {
        assert(trim_start_spec(s) =~= s.subrange(0, s.len() as int));
    } else {
        let t = s.drop_first();
        assert(forall|k: int| 0 <= k < i - 1 ==> is_space_char(#[trigger] t[k]));
        lemma_trim_start_at(t, i - 1);
        assert(t.subrange(i - 1, t.len() as int) =~= s.subrange(i, s.len() as int));
    }
}

/// If the characters of `s` from position `j` on are whitespace and the one
/// before `j` (if any) is not, trimming the end of `s` keeps exactly the
/// first `j` characters.
proof fn lemma_trim_end_at(s: Seq<char>, j: int)
    requires
        0 <= j <= s.len(),
        forall|k: int| j <= k < s.len() ==> is_space_char(s[k]),
        j > 0 ==> !is_space_char(s[j - 1]),
    ensures
        trim_end_spec(s) =~= s.subrange(0, j),
    decreases s.len() - j,
{
    if j == s.len() {
        if s.len() > 0 {
            assert(!is_space_char(s.last()));
        }
        assert(trim_end_spec(s) =~= s.subrange(0, j));
    } else {
        let t = s.drop_last();
        assert(is_space_char(s.last()));
        assert(forall|k: int| j <= k < t.len() ==> is_space_char(#[trigger] t[k]));
        lemma_trim_end_at(t, j);
        assert(t.subrange(0, j) =~= s.subrange(0, j));
    }
}

/// Trimming the end of a sequence keeps a prefix of it.
pub proof fn lemma_trim_end_is_prefix(s: Seq<char>)
    ensures
        trim_end_spec(s).len() <= s.len(),
        forall|k: int| 0 <= k < trim_end_spec(s).len() ==> #[trigger] trim_end_spec(s)[k] == s[k],
    decreases s.len(),
{
    if s.len() > 0 && is_space_char(s.last()) {
        let t = s.drop_last();
        lemma_trim_end_is_prefix(t);
        assert(trim_end_spec(s) == trim_end_spec(t));
        assert forall|k: int| 0 <= k < trim_end_spec(s).len() implies #[trigger] trim_end_spec(
            s,
        )[k] == s[k] by {
            assert(trim_end_spec(t)[k] == t[k]);
            assert(t[k] == s[k]);
        }
    }
}

/// If `s` does not begin with whitespace, its trimmed form is a prefix of it.
pub proof fn lemma_trim_keeps_first_char(s: Seq<char>)
    requires
        s.len() > 0,
        !is_space_char(s[0]),
    ensures
        trim_spec(s).len() > 0 ==> trim_spec(s)[0] == s[0],
{
    assert(trim_start_spec(s) == s);
    lemma_trim_end_is_prefix(s);
}

/// Whether `c` is one of the whitespace characters that trimming removes.
fn is_space(c: char) -> (r: bool)
    ensures
        r == is_space_char(c),
{
    c == ' ' || c == '\t' || c == '\r' || c == '\n'
}

/// The slice of `s` with leading and trailing whitespace removed.
pub fn trim(s: &str) -> (r: &str)
    ensures
        r@ == trim_spec(s@),
{
    let n: usize = s.unicode_len();
    let mut start: usize = 0;
    while start < n && is_space(s.get_char(start))
        invariant
            n == s@.len(),
            0 <= start <= n,
            forall|k: int| 0 <= k < start ==> is_space_char(s@[k]),
        decreases n - start,
    {
        start = start + 1;
    }
    let mut end: usize = n;
    while end > start && is_space(s.get_char(end - 1))
        invariant
            n == s@.len(),
            start <= end <= n,
            forall|k: int| end <= k < n ==> is_space_char(s@[k]),
        decreases end,
    {
        end = end - 1;
    }
    proof {
        lemma_trim_start_at(s@, start as int);
        let tail = s@.subrange(start as int, n as int);
        assert(forall|k: int|
            end - start <= k < tail.len() ==> is_space_char(#[trigger] tail[k]));
        lemma_trim_end_at(tail, end - start);
        assert(tail.subrange(0, end - start) =~= s@.subrange(start as int, end as int));
    }
    s.substring_char(start, end)
}

/// Whether two string slices hold the same characters.
pub fn str_equal(a: &str, b: &str) -> (r: bool)
    ensures
        r <==> a@ == b@,
{
    let an: usize = a.unicode_len();
    let bn: usize = b.unicode_len();
    if an != bn {
        return false;
    }
    let mut i: usize = 0;
    while i < an
        invariant
            an == a@.len(),
            bn == b@.len(),
            an == bn,
            0 <= i <= an,
            forall|k: int| 0 <= k < i ==> a@[k] == b@[k],
        decreases an - i,
    {
        if a.get_char(i) != b.get_char(i) {
            return false;
        }
        i = i + 1;
    }
    proof {
        assert(a@ =~= b@);
    }
    true
}

/// Whether the characters of `prefix` begin `s`.
pub fn has_prefix(s: &str, prefix: &str) -> (r: bool)
    ensures
        r <==> (s@.len() >= prefix@.len() && s@.subrange(0, prefix@.len() as int)
            == prefix@),
{
    let sn: usize = s.unicode_len();
    let pn: usize = prefix.unicode_len();
    if sn < pn {
        return false;
    }
    let mut i: usize = 0;
    while i < pn
        invariant
            sn == s@.len(),
            pn == prefix@.len(),
            pn <= sn,
            0 <= i <= pn,
            forall|k: int| 0 <= k < i ==> s@[k] == prefix@[k],
        decreases pn - i,
    {
        if s.get_char(i) != prefix.get_char(i) {
            proof {
                assert(s@.subrange(0, pn as int)[i as int] != prefix@[i as int]);
            }
            return false;
        }
        i = i + 1;
    }
    proof {
        assert(s@.subrange(0, pn as int) =~= prefix@);
    }
    true
}

} // verus!
