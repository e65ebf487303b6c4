use vstd::prelude::*;

verus! {

/// `p` is a suffix of `s`.
pub open spec fn is_suffix(p: Seq<char>, s: Seq<char>) -> bool {
    p.len() <= s.len() && s.subrange(s.len() - p.len(), s.len() as int) == p
}

/// `p` occurs in `s` starting at position `i`.
pub open spec fn occurs_at(p: Seq<char>, s: Seq<char>, i: int) -> bool {
    0 <= i && i + p.len() <= s.len() && s.subrange(i, i + p.len()) == p
}

/// `p` occurs somewhere in `s`.
pub open spec fn has_substring(s: Seq<char>, p: Seq<char>) -> bool {
    exists|i: int| #[trigger] occurs_at(p, s, i)
}

/// The characters that separate the words of a command line.
pub open spec fn is_blank(c: char) -> bool {
    c == ' ' || c == '\t' || c == '\n' || c == '\r'
}

/// The words of `rest`, where `cur` holds the characters of a word already begun.
pub open spec fn words_from(cur: Seq<char>, rest: Seq<char>) -> Seq<Seq<char>>
    decreases rest.len(),
{
    if rest.len() == 0 {
        if cur.len() == 0 {
            seq![]
        } else {
            seq![cur]
        }
    } else if is_blank(rest[0]) {
        if cur.len() == 0 {
            words_from(seq![], rest.drop_first())
        } else {
            seq![cur] + words_from(seq![], rest.drop_first())
        }
    } else {
        words_from(cur.push(rest[0]), rest.drop_first())
    }
}

/// The maximal runs of non-blank characters of `s`, in order.
pub open spec fn words(s: Seq<char>) -> Seq<Seq<char>> {
    words_from(seq![], s)
}

/// The pieces of `rest` between occurrences of `sep`, where `cur` holds the
/// characters of a piece already begun. Empty pieces are kept.
pub open spec fn pieces_from(cur: Seq<char>, rest: Seq<char>, sep: char) -> Seq<Seq<char>>
    decreases rest.len(),
{
    if rest.len() == 0 {
        seq![cur]
    } else if rest[0] == sep {
        seq![cur] + pieces_from(seq![], rest.drop_first(), sep)
    } else {
        pieces_from(cur.push(rest[0]), rest.drop_first(), sep)
    }
}

/// The pieces of `s` between occurrences of `sep`, empty ones included.
pub open spec fn pieces(s: Seq<char>, sep: char) -> Seq<Seq<char>> {
    pieces_from(seq![], s, sep)
}

/// `s` holds the character `c`.
pub open spec fn has_char(s: Seq<char>, c: char) -> bool {
    exists|j: int| 0 <= j < s.len() && s[j] == c
}

/// There is always one piece more than there are separators, so at least one,
/// and at least two once a separator occurs.
pub proof fn pieces_count(cur: Seq<char>, rest: Seq<char>, sep: char)
    ensures
        pieces_from(cur, rest, sep).len() >= 1,
        has_char(rest, sep) ==> pieces_from(cur, rest, sep).len() >= 2,
    decreases rest.len(),
{
    if rest.len() > 0 {
        let tail = rest.drop_first();
        if rest[0] == sep {
            pieces_count(seq![], tail, sep);
        } else {
            pieces_count(cur.push(rest[0]), tail, sep);
            if has_char(rest, sep) {
                let j = choose|j: int| 0 <= j < rest.len() && rest[j] == sep;
                assert(tail[j - 1] == sep);
            }
        }
    }
}

/// The character sequences of a vector of strings.
pub open spec fn strings_view(v: Seq<String>) -> Seq<Seq<char>> {
    v.map_values(|w: String| w@)
}

/// Whether `p` occurs in `s` at character position `i`.
fn matches_at(s: &str, p: &str, i: usize) -> (r: bool)
    requires
        i + p@.len() <= s@.len(),
        s@.len() <= usize::MAX,
    ensures
        r == (s@.subrange(i as int, i + p@.len()) == p@),
{
    let n = p.unicode_len();
    let mut k: usize = 0;
    while k < n
        invariant
            n == p@.len(),
            i + n <= s@.len(),
            s@.len() <= usize::MAX,
            k <= n,
            forall|j: int| 0 <= j < k ==> s@[i + j] == p@[j],
        decreases n - k,
    {
        if s.get_char(i + k) != p.get_char(k) {
            assert(s@.subrange(i as int, i + n)[k as int] != p@[k as int]);
            return false;
        }
        k += 1;
    }
    assert(s@.subrange(i as int, i + n) =~= p@);
    true
}

/// Whether `s` and `p` hold the same characters.
pub fn str_equals(s: &str, p: &str) -> (r: bool)
    ensures
        r == (s@ == p@),
{
    let n = s.unicode_len();
    let m = p.unicode_len();
    if n != m {
        false
    } else {
        assert(s@.subrange(0, n as int) =~= s@);
        matches_at(s, p, 0)
    }
}

/// Whether `s` ends with `p`.
pub fn str_ends_with(s: &str, p: &str) -> (r: bool)
    ensures
        r == is_suffix(p@, s@),
{
    let n = s.unicode_len();
    let m = p.unicode_len();
    if m > n {
        false
    } else {
        matches_at(s, p, n - m)
    }
}

/// Whether `p` occurs anywhere in `s`.
pub fn str_contains(s: &str, p: &str) -> (r: bool)
    ensures
        r == has_substring(s@, p@),
{
    let n = s.unicode_len();
    let m = p.unicode_len();
    if m > n {
        assert forall|i: int| !occurs_at(p@, s@, i) by {}
        return false;
    }
    if m == 0 {
        assert(s@.subrange(0, 0) =~= p@);
        assert(occurs_at(p@, s@, 0));
        return true;
    }
    let mut i: usize = 0;
    while i <= n - m
        invariant
            n == s@.len(),
            m == p@.len(),
            1 <= m <= n,
            i <= n - m + 1,
            forall|j: int| 0 <= j < i ==> !#[trigger] occurs_at(p@, s@, j),
        decreases n - m + 1 - i,
    {
        if matches_at(s, p, i) {
            assert(occurs_at(p@, s@, i as int));
            return true;
        }
        i += 1;
    }
    assert forall|j: int| !occurs_at(p@, s@, j) by {}
    false
}

/// Splits `s` at every `sep`, keeping empty pieces.
pub fn split_on(s: &str, sep: char) -> (r: Vec<String>)
    ensures
        strings_view(r@) == pieces(s@, sep),
{
    let n = s.unicode_len();
    let mut out: Vec<String> = Vec::new();
    let mut start: usize = 0;
    let mut i: usize = 0;
    assert(strings_view(out@) =~= seq![]);
    assert(s@.subrange(0, 0) =~= seq![]);
    assert(s@.subrange(0, n as int) =~= s@);
    assert(seq![] + pieces(s@, sep) =~= pieces(s@, sep));
    while i < n
        invariant
            n == s@.len(),
            start <= i <= n,
            strings_view(out@) + pieces_from(s@.subrange(start as int, i as int), s@.subrange(i as int, n as int), sep)
                == pieces(s@, sep),
        decreases n - i,
    {
        let ghost cur = s@.subrange(start as int, i as int);
        let ghost rest = s@.subrange(i as int, n as int);
        let ghost done = strings_view(out@);
        assert(rest.drop_first() =~= s@.subrange(i + 1, n as int));
        let c = s.get_char(i);
        if c == sep {
            let w = String::from_str(s.substring_char(start, i));
            out.push(w);
            assert(strings_view(out@) =~= done.push(cur));
            assert(done + (seq![cur] + pieces_from(seq![], rest.drop_first(), sep)) =~= done.push(cur)
                + pieces_from(seq![], rest.drop_first(), sep));
            start = i + 1;
            assert(s@.subrange(start as int, start as int) =~= seq![]);
        } else {
            assert(cur.push(c) =~= s@.subrange(start as int, i + 1));
        }
        i += 1;
    }
    let ghost cur = s@.subrange(start as int, n as int);
    let ghost done = strings_view(out@);
    assert(s@.subrange(n as int, n as int) =~= seq![]);
    let w = String::from_str(s.substring_char(start, n));
    out.push(w);
    assert(strings_view(out@) =~= done + seq![cur]);
    out
}

/// Splits `s` into its words: the runs of characters between blanks (space, tab,
/// newline, carriage return), with empty runs left out.
pub fn split_words(s: &str) -> (r: Vec<String>)
    ensures
        strings_view(r@) == words(s@),
{
    let n = s.unicode_len();
    let mut out: Vec<String> = Vec::new();
    let mut start: usize = 0;
    let mut i: usize = 0;
    assert(strings_view(out@) =~= seq![]);
    assert(s@.subrange(0, 0) =~= seq![]);
    assert(s@.subrange(0, n as int) =~= s@);
    assert(seq![] + words(s@) =~= words(s@));
    while i < n
        invariant
            n == s@.len(),
            start <= i <= n,
            strings_view(out@) + words_from(s@.subrange(start as int, i as int), s@.subrange(i as int, n as int))
                == words(s@),
        decreases n - i,
    {
        let ghost cur = s@.subrange(start as int, i as int);
        let ghost rest = s@.subrange(i as int, n as int);
        let ghost done = strings_view(out@);
        assert(rest.drop_first() =~= s@.subrange(i + 1, n as int));
        let c = s.get_char(i);
        if c == ' ' || c == '\t' || c == '\n' || c == '\r' {
            if start < i {
                let w = String::from_str(s.substring_char(start, i));
                out.push(w);
                assert(strings_view(out@) =~= done.push(cur));
                assert(done + (seq![cur] + words_from(seq![], rest.drop_first())) =~= done.push(cur)
                    + words_from(seq![], rest.drop_first()));
            } else {
                assert(cur =~= seq![]);
            }
            start = i + 1;
            assert(s@.subrange(start as int, start as int) =~= seq![]);
        } else {
            assert(cur.push(c) =~= s@.subrange(start as int, i + 1));
        }
        i += 1;
    }
    let ghost cur = s@.subrange(start as int, n as int);
    let ghost done = strings_view(out@);
    assert(s@.subrange(n as int, n as int) =~= seq![]);
    if start < n {
        let w = String::from_str(s.substring_char(start, n));
        out.push(w);
        assert(strings_view(out@) =~= done + seq![cur]);
    } else {
        assert(cur =~= seq![]);
        assert(done + seq![] =~= done);
    }
    out
}

} // verus!
