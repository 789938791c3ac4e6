//! Character-level text utilities: scanning for separators, splitting an
//! HTTP request line into whitespace-separated tokens, and exact string
//! comparison.

use vstd::prelude::*;
use vstd::string::*;

verus! {

/// Whitespace as it separates the tokens of an HTTP request line.
pub open spec fn is_ws(c: char) -> bool {
    c == ' ' || c == '\t' || c == '\r' || c == '\n'
}

/// Index of the first occurrence of a character, or -1 when it is absent.
pub open spec fn find_char(s: Seq<char>, c: char) -> int
    decreases s.len(),
{
    if s.len() == 0 {
        -1
    } else if s[0] == c {
        0
    } else {
        let r = find_char(s.drop_first(), c);
        if r < 0 {
            -1
        } else {
            r + 1
        }
    }
}

/// Whether a character occurs in a sequence.
pub open spec fn has_char(s: Seq<char>, c: char) -> bool {
    find_char(s, c) >= 0
}

/// `find_char` is -1 or a valid index of the sought character.
pub proof fn lemma_find_char_bounds(s: Seq<char>, c: char)
    ensures
        -1 <= find_char(s, c) < s.len(),
        find_char(s, c) >= 0 ==> s[find_char(s, c)] == c,
    decreases s.len(),
{
    if s.len() > 0 && s[0] != c {
        lemma_find_char_bounds(s.drop_first(), c);
    }
}

/// A scan that misses up to `i` and hits at `i` (or runs out) determines `find_char`.
proof fn lemma_find_char_scan(s: Seq<char>, c: char, i: int)
    requires
        0 <= i <= s.len(),
        forall|j: int| 0 <= j < i ==> s[j] != c,
        i < s.len() ==> s[i] == c,
    ensures
        find_char(s, c) == if i == s.len() {
            -1int
        } else {
            i
        },
    decreases i,
{
    if i == 0 {
    } else {
        assert(forall|j: int| 0 <= j < i - 1 ==> s.drop_first()[j] == s[j + 1]);
        lemma_find_char_scan(s.drop_first(), c, i - 1);
    }
}

/// Finds the first occurrence of a character.
pub fn find_char_at(s: &str, c: char) -> (r: Option<usize>)
    ensures
        match r {
            Some(i) => find_char(s@, c) == i && i < s@.len(),
            None => find_char(s@, c) == -1,
        },
{
    let n = s.unicode_len();
    let mut i: usize = 0;
    while i < n
        invariant
            n == s@.len(),
            i <= n,
            forall|j: int| 0 <= j < i ==> s@[j] != c,
        decreases n - i,
    {
        if s.get_char(i) == c {
            proof {
                lemma_find_char_scan(s@, c, i as int);
            }
            return Some(i);
        }
        i = i + 1;
    }
    proof {
        lemma_find_char_scan(s@, c, n as int);
    }
    None
}

/// Whether a character occurs in a string.
pub fn contains_char(s: &str, c: char) -> (r: bool)
    ensures
        r == has_char(s@, c),
{
    match find_char_at(s, c) {
        Some(_) => true,
        None => false,
    }
}

/// Drops leading whitespace.
pub open spec fn skip_ws(s: Seq<char>) -> Seq<char>
    decreases s.len(),
{
    if s.len() > 0 && is_ws(s[0]) {
        skip_ws(s.drop_first())
    } else {
        s
    }
}

/// The leading run of non-whitespace characters.
pub open spec fn take_token(s: Seq<char>) -> Seq<char>
    decreases s.len(),
{
    if s.len() > 0 && !is_ws(s[0]) {
        seq![s[0]] + take_token(s.drop_first())
    } else {
        Seq::empty()
    }
}

/// What remains after the leading run of non-whitespace characters.
pub open spec fn drop_token(s: Seq<char>) -> Seq<char>
    decreases s.len(),
{
    if s.len() > 0 && !is_ws(s[0]) {
        drop_token(s.drop_first())
    } else {
        s
    }
}

/// The second whitespace-separated token of a sequence.
pub open spec fn second_token_of(s: Seq<char>) -> Seq<char> {
    take_token(skip_ws(drop_token(skip_ws(s))))
}

/// A scan over leading whitespace determines `skip_ws`.
proof fn lemma_skip_ws_scan(s: Seq<char>, i: int)
    requires
        0 <= i <= s.len(),
        forall|j: int| 0 <= j < i ==> is_ws(s[j]),
        i < s.len() ==> !is_ws(s[i]),
    ensures
        skip_ws(s) == s.skip(i),
    decreases i,
{
    if i == 0 {
        assert(s.skip(0) =~= s);
    } else {
        assert(forall|j: int| 0 <= j < i - 1 ==> s.drop_first()[j] == s[j + 1]);
        lemma_skip_ws_scan(s.drop_first(), i - 1);
        assert(s.drop_first().skip(i - 1) =~= s.skip(i));
    }
}

/// A scan over a leading token determines `take_token` and `drop_token`.
proof fn lemma_token_scan(s: Seq<char>, i: int)
    requires
        0 <= i <= s.len(),
        forall|j: int| 0 <= j < i ==> !is_ws(s[j]),
        i < s.len() ==> is_ws(s[i]),
    ensures
        take_token(s) == s.take(i),
        drop_token(s) == s.skip(i),
    decreases i,
{
    if i == 0 {
        assert(s.take(0) =~= Seq::<char>::empty());
        assert(s.skip(0) =~= s);
    } else {
        assert(forall|j: int| 0 <= j < i - 1 ==> s.drop_first()[j] == s[j + 1]);
        lemma_token_scan(s.drop_first(), i - 1);
        assert(s.take(i) =~= seq![s[0]] + s.drop_first().take(i - 1));
        assert(s.drop_first().skip(i - 1) =~= s.skip(i));
    }
}

/// Index of the end of the whitespace run starting at `from`.
fn scan_ws_end(s: &str, from: usize) -> (r: usize)
    requires
        from <= s@.len(),
    ensures
        from <= r <= s@.len(),
        forall|j: int| from <= j < r ==> is_ws(s@[j]),
        r < s@.len() ==> !is_ws(s@[r as int]),
{
    let n = s.unicode_len();
    let mut i: usize = from;
    while i < n
        invariant
            n == s@.len(),
            from <= i <= n,
            forall|j: int| from <= j < i ==> is_ws(s@[j]),
        decreases n - i,
    {
        let c = s.get_char(i);
        if !(c == ' ' || c == '\t' || c == '\r' || c == '\n') {
            return i;
        }
        i = i + 1;
    }
    i
}

/// Index of the end of the non-whitespace run starting at `from`.
fn scan_token_end(s: &str, from: usize) -> (r: usize)
    requires
        from <= s@.len(),
    ensures
        from <= r <= s@.len(),
        forall|j: int| from <= j < r ==> !is_ws(s@[j]),
        r < s@.len() ==> is_ws(s@[r as int]),
{
    let n = s.unicode_len();
    let mut i: usize = from;
    while i < n
        invariant
            n == s@.len(),
            from <= i <= n,
            forall|j: int| from <= j < i ==> !is_ws(s@[j]),
        decreases n - i,
    {
        let c = s.get_char(i);
        if c == ' ' || c == '\t' || c == '\r' || c == '\n' {
            return i;
        }
        i = i + 1;
    }
    i
}

/// The second whitespace-separated token of a string; empty when there is none.
pub fn second_token(line: &str) -> (t: String)
    ensures
        t@ == second_token_of(line@),
{
    let i0 = scan_ws_end(line, 0);
    let i1 = scan_token_end(line, i0);
    let i2 = scan_ws_end(line, i1);
    let i3 = scan_token_end(line, i2);
    proof {
        lemma_skip_ws_scan(line@, i0 as int);
        let s1 = line@.skip(i0 as int);
        assert(forall|j: int| 0 <= j < i1 - i0 ==> s1[j] == line@[j + i0]);
        assert(i1 < line@.len() ==> s1[i1 - i0] == line@[i1 as int]);
        lemma_token_scan(s1, i1 - i0);
        assert(s1.skip(i1 - i0) =~= line@.skip(i1 as int));
        let s2 = line@.skip(i1 as int);
        assert(forall|j: int| 0 <= j < i2 - i1 ==> s2[j] == line@[j + i1]);
        assert(i2 < line@.len() ==> s2[i2 - i1] == line@[i2 as int]);
        lemma_skip_ws_scan(s2, i2 - i1);
        assert(s2.skip(i2 - i1) =~= line@.skip(i2 as int));
        let s3 = line@.skip(i2 as int);
        assert(forall|j: int| 0 <= j < i3 - i2 ==> s3[j] == line@[j + i2]);
        assert(i3 < line@.len() ==> s3[i3 - i2] == line@[i3 as int]);
        lemma_token_scan(s3, i3 - i2);
        assert(s3.take(i3 - i2) =~= line@.subrange(i2 as int, i3 as int));
    }
    let t = line.substring_char(i2, i3);
    t.to_owned()
}

/// Exact character-by-character string equality.
pub fn str_eq(a: &str, b: &str) -> (r: bool)
    ensures
        r == (a@ == b@),
{
    let na = a.unicode_len();
    let nb = b.unicode_len();
    if na != nb {
        return false;
    }
    let mut i: usize = 0;
    while i < na
        invariant
            na == a@.len(),
            nb == b@.len(),
            na == nb,
            i <= na,
            forall|j: int| 0 <= j < i ==> a@[j] == b@[j],
        decreases na - i,
    {
        if a.get_char(i) != b.get_char(i) {
            return false;
        }
        i = i + 1;
    }
    proof {
        assert(a@ =~= b@);
    }
    true
}

} // verus!
