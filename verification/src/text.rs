//! Text helpers shared by the parser: first-occurrence search over character
//! sequences and string-slice equality.

use vstd::prelude::*;
use vstd::string::StrSliceExecFns;
use vstd::string::StringSliceAdditionalSpecFns;

verus! {

/// Index of the first character of `s` that `targets` contains; `None` when
/// `s` holds no such character.
pub open spec fn find_first(s: Seq<char>, targets: Set<char>) -> Option<int>
    decreases s.len(),
{
    if s.len() == 0 {
        None
    } else if targets.contains(s[0]) {
        Some(0)
    } else {
        match find_first(s.drop_first(), targets) {
            Some(i) => Some(i + 1),
            None => None,
        }
    }
}

/// What `find_first` returns: the first index holding a target character, or
/// `None` when no index does.
pub proof fn lemma_find_first(s: Seq<char>, targets: Set<char>)
    ensures
        match find_first(s, targets) {
            Some(i) => 0 <= i < s.len() && targets.contains(s[i]) && (forall|j: int|
                0 <= j < i ==> !targets.contains(s[j])),
            None => forall|j: int| 0 <= j < s.len() ==> !targets.contains(s[j]),
        },
    decreases s.len(),
{
    if s.len() == 0 {
    } else if targets.contains(s[0]) {
    } else {
        lemma_find_first(s.drop_first(), targets);
        assert(forall|j: int| 1 <= j < s.len() ==> s.drop_first()[j - 1] == s[j]);
    }
}

/// An index holding a target character, with none before it, is exactly what
/// `find_first` returns.
pub proof fn lemma_find_first_at(s: Seq<char>, targets: Set<char>, i: int)
    requires
        0 <= i < s.len(),
        targets.contains(s[i]),
        forall|j: int| 0 <= j < i ==> !targets.contains(s[j]),
    ensures
        find_first(s, targets) == Some(i),
{
    lemma_find_first(s, targets);
    match find_first(s, targets) {
        Some(k) => {
            if k < i {
                assert(!targets.contains(s[k]));
            } else if k > i {
                assert(!targets.contains(s[i]));
            }
        },
        None => {
            assert(!targets.contains(s[i]));
        },
    }
}

/// When no character of `s` is a target, `find_first` returns `None`.
pub proof fn lemma_find_first_none(s: Seq<char>, targets: Set<char>)
    requires
        forall|j: int| 0 <= j < s.len() ==> !targets.contains(s[j]),
    ensures
        find_first(s, targets) is None,
{
    lemma_find_first(s, targets);
    match find_first(s, targets) {
        Some(k) => {
            assert(!targets.contains(s[k]));
        },
        None => {},
    }
}

/// True of the characters that end a request-line token: space and carriage
/// return.
pub open spec fn is_delim(c: char) -> bool {
    c == ' ' || c == '\r'
}

/// The set of token-ending characters, for use with `find_first`.
pub open spec fn delims() -> Set<char> {
    set![' ', '\r']
}

/// First position in `[from, to)` at which `s` holds the character `c`.
pub fn find_char_in(s: &str, from: usize, to: usize, c: char) -> (r: Option<usize>)
    requires
        from <= to <= s@.len(),
    ensures
        match r {
            Some(i) => from <= i < to && s@[i as int] == c && (forall|j: int|
                from <= j < i ==> s@[j] != c),
            None => forall|j: int| from <= j < to ==> s@[j] != c,
        },
{
    let mut i: usize = from;
    while i < to
        invariant
            from <= i <= to <= s@.len(),
            forall|j: int| from <= j < i ==> s@[j] != c,
        decreases to - i,
    {
        if s.get_char(i) == c {
            return Some(i);
        }
        i = i + 1;
    }
    None
}

/// First position in `[from, to)` at which `s` holds a space or a carriage
/// return.
pub fn find_delim_in(s: &str, from: usize, to: usize) -> (r: Option<usize>)
    requires
        from <= to <= s@.len(),
    ensures
        match r {
            Some(i) => from <= i < to && is_delim(s@[i as int]) && (forall|j: int|
                from <= j < i ==> !is_delim(s@[j])),
            None => forall|j: int| from <= j < to ==> !is_delim(s@[j]),
        },
{
    let mut i: usize = from;
    while i < to
        invariant
            from <= i <= to <= s@.len(),
            forall|j: int| from <= j < i ==> !is_delim(s@[j]),
        decreases to - i,
    {
        let c = s.get_char(i);
        if c == ' ' || c == '\r' {
            return Some(i);
        }
        i = i + 1;
    }
    None
}

/// Equality of two string slices, decided on their UTF-8 bytes: the encoding
/// is injective, so equal bytes mean equal character sequences.
pub fn str_eq(a: &str, b: &str) -> (r: bool)
    ensures
        r == (a@ == b@),
{
    proof {
        vstd::utf8::encode_utf8_decode_utf8(a@);
        vstd::utf8::encode_utf8_decode_utf8(b@);
    }
    let ab = a.as_bytes();
    let bb = b.as_bytes();
    if ab.len() != bb.len() {
        return false;
    }
    let mut i: usize = 0;
    while i < ab.len()
        invariant
            ab@ == a.spec_bytes(),
            bb@ == b.spec_bytes(),
            ab@.len() == bb@.len(),
            i <= ab@.len(),
            forall|j: int| 0 <= j < i ==> ab@[j] == bb@[j],
        decreases ab@.len() - i,
    {
        if ab[i] != bb[i] {
            return false;
        }
        i = i + 1;
    }
    proof {
        assert(a.spec_bytes() =~= b.spec_bytes());
    }
    true
}

} // verus!
