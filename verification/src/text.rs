//! Character-level helpers shared by the parsers: locating the first or last
//! occurrence of a character, and trimming surrounding whitespace.

use vstd::prelude::*;
use vstd::string::*;

verus! {

/// `s` contains the character `c`.
pub open spec fn seq_contains_char(s: Seq<char>, c: char) -> bool {
    exists|i: int| 0 <= i < s.len() && s[i] == c
}

/// Position `i` holds the first occurrence of `c` in `s`.
pub open spec fn char_at_first(s: Seq<char>, c: char, i: int) -> bool {
    &&& 0 <= i < s.len()
    &&& s[i] == c
    &&& forall|j: int| 0 <= j < i ==> s[j] != c
}

/// Position `i` holds the last occurrence of `c` in `s`.
pub open spec fn char_at_last(s: Seq<char>, c: char, i: int) -> bool {
    &&& 0 <= i < s.len()
    &&& s[i] == c
    &&& forall|j: int| i < j < s.len() ==> s[j] != c
}

/// Two positions that both hold the first occurrence of `c` are the same.
pub proof fn lemma_char_at_first_unique(s: Seq<char>, c: char, i: int, j: int)
    requires
        char_at_first(s, c, i),
        char_at_first(s, c, j),
    ensures
        i == j,
{
    if i < j {
        assert(s[i] != c);
    } else if j < i {
        assert(s[j] != c);
    }
}

/// Two positions that both hold the last occurrence of `c` are the same.
pub proof fn lemma_char_at_last_unique(s: Seq<char>, c: char, i: int, j: int)
    requires
        char_at_last(s, c, i),
        char_at_last(s, c, j),
    ensures
        i == j,
{
    if i < j {
        assert(s[j] != c);
    } else if j < i {
        assert(s[i] != c);
    }
}

/// A whitespace character, as trimming understands it.
pub open spec fn is_space_char(c: char) -> bool {
    c == ' ' || c == '\t' || c == '\n' || c == '\r' || c == '\u{b}' || c == '\u{c}'
}

/// Every character of `s` is whitespace.
pub open spec fn all_space(s: Seq<char>) -> bool {
    forall|i: int| 0 <= i < s.len() ==> is_space_char(s[i])
}

/// `s` with leading and trailing whitespace removed.
pub open spec fn spec_trim(s: Seq<char>) -> Seq<char>
    decreases s.len(),
{
    if s.len() == 0 {
        s
    } else if is_space_char(s.first()) {
        spec_trim(s.drop_first())
    } else if is_space_char(s.last()) {
        spec_trim(s.drop_last())
    } else {
        s
    }
}

/// Trimming an all-whitespace string leaves nothing.
pub proof fn lemma_spec_trim_all_space(s: Seq<char>)
    requires
        all_space(s),
    ensures
        spec_trim(s) == Seq::<char>::empty(),
    decreases s.len(),
{
    if s.len() == 0 {
        assert(s =~= Seq::<char>::empty());
    } else {
        assert(all_space(s.drop_first())) by {
            assert forall|i: int| 0 <= i < s.drop_first().len() implies is_space_char(
                s.drop_first()[i],
            ) by {
                assert(s.drop_first()[i] == s[i + 1]);
            }
        }
        lemma_spec_trim_all_space(s.drop_first());
    }
}

/// Trimming keeps exactly the span from the first to the last
/// non-whitespace character.
pub proof fn lemma_spec_trim_subrange(s: Seq<char>, lo: int, hi: int)
    requires
        0 <= lo < hi <= s.len(),
        !is_space_char(s[lo]),
        !is_space_char(s[hi - 1]),
        forall|j: int| 0 <= j < lo ==> is_space_char(s[j]),
        forall|j: int| hi <= j < s.len() ==> is_space_char(s[j]),
    ensures
        spec_trim(s) == s.subrange(lo, hi),
    decreases s.len(),
{
    if lo > 0 {
        lemma_spec_trim_subrange(s.drop_first(), lo - 1, hi - 1);
        assert(s.drop_first().subrange(lo - 1, hi - 1) =~= s.subrange(lo, hi));
    } else if hi < s.len() {
        assert(is_space_char(s.last()));
        lemma_spec_trim_subrange(s.drop_last(), lo, hi);
        assert(s.drop_last().subrange(0, hi) =~= s.subrange(0, hi));
    } else {
        assert(s.subrange(0, s.len() as int) =~= s);
    }
}

/// Finds the first occurrence of `c` in `s`.
pub fn find_char(s: &str, c: char) -> (r: Option<usize>)
    ensures
        match r {
            Some(i) => char_at_first(s@, c, i as int),
            None => !seq_contains_char(s@, c),
        },
{
    let n = s.unicode_len();
    let mut i: usize = 0;
    while i < n
        invariant
            i <= n,
            s@.len() == n as nat,
            forall|j: int| 0 <= j < i ==> s@[j] != c,
        decreases n - i,
    {
        if s.get_char(i) == c {
            return Some(i);
        }
        i += 1;
    }
    None
}

/// Finds the last occurrence of `c` in `s`.
pub fn rfind_char(s: &str, c: char) -> (r: Option<usize>)
    ensures
        match r {
            Some(i) => char_at_last(s@, c, i as int),
            None => !seq_contains_char(s@, c),
        },
{
    let n = s.unicode_len();
    let mut i: usize = n;
    while i > 0
        invariant
            i <= n,
            s@.len() == n as nat,
            forall|j: int| i <= j < n ==> s@[j] != c,
        decreases i,
    {
        i -= 1;
        if s.get_char(i) == c {
            return Some(i);
        }
    }
    None
}

/// Whether `c` is whitespace, as trimming understands it.
fn is_space(c: char) -> (r: bool)
    ensures
        r == is_space_char(c),
{
    c == ' ' || c == '\t' || c == '\n' || c == '\r' || c == '\u{b}' || c == '\u{c}'
}

/// Removes leading and trailing whitespace from `s`.
pub fn trim_str<'a>(s: &'a str) -> (t: &'a str)
    ensures
        t@ == spec_trim(s@),
{
    let n = s.unicode_len();
    let mut lo: usize = 0;
    while lo < n
        invariant
            lo <= n,
            s@.len() == n as nat,
            forall|j: int| 0 <= j < lo ==> is_space_char(s@[j]),
        ensures
            lo <= n,
            s@.len() == n as nat,
            forall|j: int| 0 <= j < lo ==> is_space_char(s@[j]),
            lo < n ==> !is_space_char(s@[lo as int]),
        decreases n - lo,
    {
        if !is_space(s.get_char(lo)) {
            break;
        }
        lo += 1;
    }
    if lo == n {
        proof {
            lemma_spec_trim_all_space(s@);
        }
        let t = s.substring_char(n, n);
        assert(t@ =~= Seq::<char>::empty());
        return t;
    }
    let mut hi: usize = n;
    while hi > lo + 1
        invariant
            lo < hi <= n,
            s@.len() == n as nat,
            !is_space_char(s@[lo as int]),
            forall|j: int| hi <= j < n ==> is_space_char(s@[j]),
        ensures
            lo < hi <= n,
            s@.len() == n as nat,
            forall|j: int| hi <= j < n ==> is_space_char(s@[j]),
            !is_space_char(s@[hi - 1]),
        decreases hi,
    {
        if !is_space(s.get_char(hi - 1)) {
            break;
        }
        hi -= 1;
    }
    proof {
        lemma_spec_trim_subrange(s@, lo as int, hi as int);
    }
    s.substring_char(lo, hi)
}

} // verus!
