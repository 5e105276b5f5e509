//! Validation of a single textual token (a "part"): the user of an address,
//! the domain of an address, or the display name of a mailbox.
//!
//! A part is valid when it is non-empty, ASCII-only, and contains none of the
//! forbidden characters `< > ( ) [ ] \ , ; : @ "`. The non-ASCII scan runs
//! before the forbidden-character scan, so a non-ASCII character is always
//! reported as non-ASCII even when it merely looks like a forbidden one.

use vstd::prelude::*;
use vstd::string::*;

verus! {

/// The reason a part is rejected.
#[derive(Debug, Clone, Copy, PartialEq, Eq)]
pub enum InvalidPartError {
    IsEmpty,
    ContainsForbiddenCharacter(char),
    ContainsNonAsciiCharacter(char),
}

/// A character that may not occur inside any part.
pub open spec fn is_forbidden_char(c: char) -> bool {
    c == '<' || c == '>' || c == '(' || c == ')' || c == '[' || c == ']' || c == '\\' || c == ','
        || c == ';' || c == ':' || c == '@' || c == '"'
}

/// A character inside the ASCII range.
pub open spec fn is_ascii_char(c: char) -> bool {
    (c as u32) < 128
}

/// Every character of `s` is ASCII.
pub open spec fn all_ascii(s: Seq<char>) -> bool {
    forall|i: int| 0 <= i < s.len() ==> is_ascii_char(s[i])
}

/// No character of `s` is forbidden.
pub open spec fn none_forbidden(s: Seq<char>) -> bool {
    forall|i: int| 0 <= i < s.len() ==> !is_forbidden_char(s[i])
}

/// A valid part: non-empty, ASCII-only, and free of forbidden characters.
pub open spec fn valid_part(s: Seq<char>) -> bool {
    s.len() > 0 && all_ascii(s) && none_forbidden(s)
}

/// Position `i` holds the first non-ASCII character of `s`.
pub open spec fn first_non_ascii_at(s: Seq<char>, i: int) -> bool {
    &&& 0 <= i < s.len()
    &&& !is_ascii_char(s[i])
    &&& forall|j: int| 0 <= j < i ==> is_ascii_char(s[j])
}

/// Position `i` holds the first forbidden character of `s`.
pub open spec fn first_forbidden_at(s: Seq<char>, i: int) -> bool {
    &&& 0 <= i < s.len()
    &&& is_forbidden_char(s[i])
    &&& forall|j: int| 0 <= j < i ==> !is_forbidden_char(s[j])
}

/// The exact outcome of validating one part: emptiness first, then the first
/// non-ASCII character, then the first forbidden character, else success.
pub open spec fn part_check(s: Seq<char>) -> Result<(), InvalidPartError> {
    if s.len() == 0 {
        Err(InvalidPartError::IsEmpty)
    } else if exists|i: int| first_non_ascii_at(s, i) {
        Err(
            InvalidPartError::ContainsNonAsciiCharacter(
                s[choose|i: int| first_non_ascii_at(s, i)],
            ),
        )
    } else if exists|i: int| first_forbidden_at(s, i) {
        Err(
            InvalidPartError::ContainsForbiddenCharacter(
                s[choose|i: int| first_forbidden_at(s, i)],
            ),
        )
    } else {
        Ok(())
    }
}

/// Two positions that both hold the first non-ASCII character are the same.
proof fn lemma_first_non_ascii_at_unique(s: Seq<char>, i: int, j: int)
    requires
        first_non_ascii_at(s, i),
        first_non_ascii_at(s, j),
    ensures
        i == j,
{
    if i < j {
        assert(is_ascii_char(s[i]));
    } else if j < i {
        assert(is_ascii_char(s[j]));
    }
}

/// Two positions that both hold the first forbidden character are the same.
proof fn lemma_first_forbidden_at_unique(s: Seq<char>, i: int, j: int)
    requires
        first_forbidden_at(s, i),
        first_forbidden_at(s, j),
    ensures
        i == j,
{
    if i < j {
        assert(!is_forbidden_char(s[i]));
    } else if j < i {
        assert(!is_forbidden_char(s[j]));
    }
}

/// A string with some non-ASCII character has a first one.
proof fn lemma_exists_first_non_ascii(s: Seq<char>, k: int)
    requires
        0 <= k < s.len(),
        !is_ascii_char(s[k]),
    ensures
        exists|i: int| first_non_ascii_at(s, i),
    decreases k,
{
    if forall|j: int| 0 <= j < k ==> is_ascii_char(s[j]) {
        assert(first_non_ascii_at(s, k));
    } else {
        let j = choose|j: int| 0 <= j < k && !is_ascii_char(s[j]);
        lemma_exists_first_non_ascii(s, j);
    }
}

/// A string with some forbidden character has a first one.
proof fn lemma_exists_first_forbidden(s: Seq<char>, k: int)
    requires
        0 <= k < s.len(),
        is_forbidden_char(s[k]),
    ensures
        exists|i: int| first_forbidden_at(s, i),
    decreases k,
{
    if forall|j: int| 0 <= j < k ==> !is_forbidden_char(s[j]) {
        assert(first_forbidden_at(s, k));
    } else {
        let j = choose|j: int| 0 <= j < k && is_forbidden_char(s[j]);
        lemma_exists_first_forbidden(s, j);
    }
}

/// Validation succeeds exactly on valid parts.
pub proof fn lemma_part_check_ok_iff_valid(s: Seq<char>)
    ensures
        part_check(s) is Ok <==> valid_part(s),
{
    if part_check(s) is Ok {
        if !all_ascii(s) {
            let k = choose|k: int| 0 <= k < s.len() && !is_ascii_char(s[k]);
            lemma_exists_first_non_ascii(s, k);
        }
        if !none_forbidden(s) {
            let k = choose|k: int| 0 <= k < s.len() && is_forbidden_char(s[k]);
            lemma_exists_first_forbidden(s, k);
        }
    }
    if valid_part(s) {
        assert forall|i: int| !first_non_ascii_at(s, i) && !first_forbidden_at(s, i) by {
            if 0 <= i < s.len() {
                assert(is_ascii_char(s[i]));
                assert(!is_forbidden_char(s[i]));
            }
        }
    }
}

/// Law: validation is idempotent. A part that has passed validation once
/// passes it again with the same successful result, and since the outcome is
/// a pure function of the part's characters, nothing about the part changes
/// between the two runs.
pub proof fn lemma_validate_idempotent(s: Seq<char>)
    requires
        part_check(s) is Ok,
    ensures
        part_check(s) == Ok::<(), InvalidPartError>(()),
        valid_part(s),
{
    lemma_part_check_ok_iff_valid(s);
}

/// Whether `c` is one of the forbidden characters.
fn is_forbidden(c: char) -> (r: bool)
    ensures
        r == is_forbidden_char(c),
{
    c == '<' || c == '>' || c == '(' || c == ')' || c == '[' || c == ']' || c == '\\' || c == ','
        || c == ';' || c == ':' || c == '@' || c == '"'
}

/// Validates one part: rejects an empty part, then the first non-ASCII
/// character, then the first forbidden character; accepts everything else.
pub fn validate_part(part: &str) -> (r: Result<(), InvalidPartError>)
    ensures
        r == part_check(part@),
{
    let n = part.unicode_len();
    if n == 0 {
        return Err(InvalidPartError::IsEmpty);
    }
    let mut i: usize = 0;
    while i < n
        invariant
            i <= n,
            part@.len() == n as nat,
            forall|j: int| 0 <= j < i ==> is_ascii_char(part@[j]),
        decreases n - i,
    {
        let c = part.get_char(i);
        if !((c as u32) < 128) {
            proof {
                assert(first_non_ascii_at(part@, i as int));
                lemma_first_non_ascii_at_unique(
                    part@,
                    i as int,
                    choose|k: int| first_non_ascii_at(part@, k),
                );
            }
            return Err(InvalidPartError::ContainsNonAsciiCharacter(c));
        }
        i += 1;
    }
    assert(all_ascii(part@));
    let mut i: usize = 0;
    while i < n
        invariant
            i <= n,
            part@.len() == n as nat,
            all_ascii(part@),
            forall|j: int| 0 <= j < i ==> !is_forbidden_char(part@[j]),
        decreases n - i,
    {
        let c = part.get_char(i);
        if is_forbidden(c) {
            proof {
                assert forall|k: int| !first_non_ascii_at(part@, k) by {
                    if 0 <= k < part@.len() {
                        assert(is_ascii_char(part@[k]));
                    }
                }
                assert(first_forbidden_at(part@, i as int));
                lemma_first_forbidden_at_unique(
                    part@,
                    i as int,
                    choose|k: int| first_forbidden_at(part@, k),
                );
            }
            return Err(InvalidPartError::ContainsForbiddenCharacter(c));
        }
        i += 1;
    }
    proof {
        assert forall|k: int| !first_non_ascii_at(part@, k) && !first_forbidden_at(part@, k) by {
            if 0 <= k < part@.len() {
                assert(is_ascii_char(part@[k]));
                assert(!is_forbidden_char(part@[k]));
            }
        }
    }
    Ok(())
}

} // verus!
