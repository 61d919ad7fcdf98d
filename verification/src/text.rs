//! Character-level string helpers.
use vstd::prelude::*;

verus! {

/// The ASCII lower-case form of a character (other characters unchanged).
pub open spec fn spec_ascii_lower(c: char) -> char {
    if 'A' <= c <= 'Z' {
        ((c as u32) + 32) as char
    } else {
        c
    }
}

/// The ASCII lower-case form of a string.
pub open spec fn spec_ascii_lowercase(s: Seq<char>) -> Seq<char> {
    s.map_values(|c: char| spec_ascii_lower(c))
}

/// The index of the first `c` in `s`, if any.
pub open spec fn spec_first_index(s: Seq<char>, c: char) -> Option<int> {
    if exists|p: int| 0 <= p < s.len() && s[p] == c {
        Some(
            choose|p: int|
                0 <= p < s.len() && s[p] == c && forall|j: int| 0 <= j < p ==> s[j] != c,
        )
    } else {
        None
    }
}

/// Whether two strings hold the same characters.
pub fn str_eq(a: &str, b: &str) -> (equal: bool)
    ensures
        equal == (a@ == b@),
{
    let n = a.unicode_len();
    let m = b.unicode_len();
    if n != m {
        return false;
    }
    let mut i: usize = 0;
    while i < n
        invariant
            n == a@.len(),
            m == b@.len(),
            n == m,
            i <= n,
            forall|k: int| 0 <= k < i ==> a@[k] == b@[k],
        decreases n - i,
    {
        if a.get_char(i) != b.get_char(i) {
            return false;
        }
        i = i + 1;
    }
    assert(a@ =~= b@);
    true
}

/// The ASCII lower-case form of a character.
pub fn ascii_lower(c: char) -> (lower: char)
    ensures
        lower == spec_ascii_lower(c),
{
    if 'A' <= c && c <= 'Z' {
        let code: u32 = (c as u32) + 32;
        assert(code <= 0x7a);
        #[verifier::truncate]
        (code as u8) as char
    } else {
        c
    }
}

/// Whether the ASCII lower-case form of `s` is `lower`.
pub fn lowercase_eq(s: &str, lower: &str) -> (equal: bool)
    ensures
        equal == (spec_ascii_lowercase(s@) == lower@),
{
    let n = s.unicode_len();
    let m = lower.unicode_len();
    if n != m {
        assert(spec_ascii_lowercase(s@).len() != lower@.len());
        return false;
    }
    let mut i: usize = 0;
    while i < n
        invariant
            n == s@.len(),
            m == lower@.len(),
            n == m,
            i <= n,
            forall|k: int| 0 <= k < i ==> spec_ascii_lower(s@[k]) == lower@[k],
        decreases n - i,
    {
        if ascii_lower(s.get_char(i)) != lower.get_char(i) {
            assert(spec_ascii_lowercase(s@)[i as int] != lower@[i as int]);
            return false;
        }
        i = i + 1;
    }
    assert(spec_ascii_lowercase(s@) =~= lower@);
    true
}

/// The index of the first `c` in `s`, if any.
pub fn first_index(s: &str, c: char) -> (index: Option<usize>)
    ensures
        match index {
            Some(i) => spec_first_index(s@, c) == Some(i as int) && i < s@.len() && s@[i as int]
                == c,
            None => spec_first_index(s@, c) is None,
        },
{
    let n = s.unicode_len();
    let mut i: usize = 0;
    while i < n
        invariant
            n == s@.len(),
            i <= n,
            forall|k: int| 0 <= k < i ==> s@[k] != c,
        decreases n - i,
    {
        if s.get_char(i) == c {
            let ghost p = choose|p: int|
                0 <= p < s@.len() && s@[p] == c && forall|j: int| 0 <= j < p ==> s@[j] != c;
            assert(0 <= i < s@.len() && s@[i as int] == c && forall|j: int|
                0 <= j < i ==> s@[j] != c);
            assert(p == i) by {
                if p < i {
                    assert(s@[p] != c);
                } else if p > i {
                    assert(s@[i as int] != c);
                }
            }
            return Some(i);
        }
        i = i + 1;
    }
    None
}

/// `path` taken from `base`: `path` itself when it is absolute, else `base`
/// and `path` joined by one `/`.
pub open spec fn spec_join_path(base: Seq<char>, path: Seq<char>) -> Seq<char> {
    if path.len() > 0 && path[0] == '/' {
        path
    } else if base.len() > 0 && base.last() != '/' {
        base + seq!['/'] + path
    } else {
        base + path
    }
}

/// `path` taken from `base`.
pub fn join_path(base: &str, path: &str) -> (joined: String)
    ensures
        joined@ == spec_join_path(base@, path@),
{
    if path.unicode_len() > 0 && path.get_char(0) == '/' {
        return String::from_str(path);
    }
    let n = base.unicode_len();
    if n > 0 && base.get_char(n - 1) != '/' {
        proof {
            reveal_strlit("/");
        }
        assert("/"@ =~= seq!['/']);
        String::from_str(base).concat("/").concat(path)
    } else {
        String::from_str(base).concat(path)
    }
}

/// Whether `c` has the Unicode `White_Space` property.
pub open spec fn spec_is_whitespace(c: char) -> bool {
    ||| '\t' <= c <= '\r'
    ||| c == ' '
    ||| c == '\u{85}'
    ||| c == '\u{a0}'
    ||| c == '\u{1680}'
    ||| '\u{2000}' <= c <= '\u{200a}'
    ||| c == '\u{2028}'
    ||| c == '\u{2029}'
    ||| c == '\u{202f}'
    ||| c == '\u{205f}'
    ||| c == '\u{3000}'
}

/// What a trim removes: whitespace, or double quotes.
#[derive(Debug, Clone, Copy, PartialEq, Eq, Structural)]
pub enum TrimKind {
    Whitespace,
    Quote,
}

/// Whether a trim of the given kind removes `c`.
pub open spec fn spec_trimmed_char(kind: TrimKind, c: char) -> bool {
    match kind {
        TrimKind::Whitespace => spec_is_whitespace(c),
        TrimKind::Quote => c == '"',
    }
}

/// `s` without its leading characters that a trim of `kind` removes.
pub open spec fn spec_trim_start(s: Seq<char>, kind: TrimKind) -> Seq<char>
    decreases s.len(),
{
    if s.len() > 0 && spec_trimmed_char(kind, s[0]) {
        spec_trim_start(s.drop_first(), kind)
    } else {
        s
    }
}

/// `s` without its trailing characters that a trim of `kind` removes.
pub open spec fn spec_trim_end(s: Seq<char>, kind: TrimKind) -> Seq<char>
    decreases s.len(),
{
    if s.len() > 0 && spec_trimmed_char(kind, s.last()) {
        spec_trim_end(s.drop_last(), kind)
    } else {
        s
    }
}

/// `s` without leading and trailing characters that a trim of `kind` removes.
pub open spec fn spec_trim_by(s: Seq<char>, kind: TrimKind) -> Seq<char> {
    spec_trim_end(spec_trim_start(s, kind), kind)
}

/// `s` without leading and trailing whitespace.
pub open spec fn spec_trim(s: Seq<char>) -> Seq<char> {
    spec_trim_by(s, TrimKind::Whitespace)
}

/// Whether `c` has the Unicode `White_Space` property.
pub fn is_whitespace(c: char) -> (ws: bool)
    ensures
        ws == spec_is_whitespace(c),
{
    ('\t' <= c && c <= '\r') || c == ' ' || c == '\u{85}' || c == '\u{a0}' || c == '\u{1680}'
        || ('\u{2000}' <= c && c <= '\u{200a}') || c == '\u{2028}' || c == '\u{2029}' || c
        == '\u{202f}' || c == '\u{205f}' || c == '\u{3000}'
}

fn trimmed_char(kind: TrimKind, c: char) -> (t: bool)
    ensures
        t == spec_trimmed_char(kind, c),
{
    match kind {
        TrimKind::Whitespace => is_whitespace(c),
        TrimKind::Quote => c == '"',
    }
}

/// `s` without leading and trailing characters that a trim of `kind`
/// removes.
pub fn trim_by(s: &str, kind: TrimKind) -> (t: &str)
    ensures
        t@ == spec_trim_by(s@, kind),
{
    let n = s.unicode_len();
    let mut a: usize = 0;
    assert(s@.subrange(0, n as int) =~= s@);
    while a < n && trimmed_char(kind, s.get_char(a))
        invariant
            n == s@.len(),
            a <= n,
            spec_trim_start(s@, kind) == spec_trim_start(s@.subrange(a as int, n as int), kind),
        decreases n - a,
    {
        assert(s@.subrange(a as int, n as int).drop_first() =~= s@.subrange(a + 1, n as int));
        a = a + 1;
    }
    assert(spec_trim_start(s@, kind) == s@.subrange(a as int, n as int));
    let mut b: usize = n;
    while b > a && trimmed_char(kind, s.get_char(b - 1))
        invariant
            n == s@.len(),
            a <= b <= n,
            spec_trim_end(s@.subrange(a as int, n as int), kind) == spec_trim_end(
                s@.subrange(a as int, b as int),
                kind,
            ),
        decreases b - a,
    {
        assert(s@.subrange(a as int, b as int).drop_last() =~= s@.subrange(a as int, b - 1));
        b = b - 1;
    }
    s.substring_char(a, b)
}

/// `s` without leading and trailing whitespace.
pub fn trim(s: &str) -> (t: &str)
    ensures
        t@ == spec_trim(s@),
{
    trim_by(s, TrimKind::Whitespace)
}

/// The pieces of `s` between the occurrences of `sep`, in order: one more
/// than there are separators.
pub open spec fn spec_split(s: Seq<char>, sep: char) -> Seq<Seq<char>>
    decreases s.len(),
{
    if s.len() == 0 {
        seq![Seq::empty()]
    } else {
        let rest = spec_split(s.drop_last(), sep);
        if s.last() == sep {
            rest.push(Seq::empty())
        } else {
            rest.update(rest.len() - 1, rest.last().push(s.last()))
        }
    }
}

/// The views of a list of strings.
pub open spec fn spec_strings(v: Seq<String>) -> Seq<Seq<char>> {
    v.map_values(|x: String| x@)
}

/// The pieces of `s` between the occurrences of `sep`.
pub fn split_on(s: &str, sep: char) -> (pieces: Vec<String>)
    ensures
        spec_strings(pieces@) == spec_split(s@, sep),
{
    let n = s.unicode_len();
    let mut pieces: Vec<String> = Vec::new();
    let mut start: usize = 0;
    let mut i: usize = 0;
    assert(s@.take(0) =~= Seq::<char>::empty());
    assert(spec_strings(pieces@).push(s@.subrange(0, 0)) =~= seq![Seq::<char>::empty()]);
    while i < n
        invariant
            n == s@.len(),
            start <= i <= n,
            spec_split(s@.take(i as int), sep) == spec_strings(pieces@).push(
                s@.subrange(start as int, i as int),
            ),
        decreases n - i,
    {
        let c = s.get_char(i);
        assert(s@.take(i + 1).drop_last() =~= s@.take(i as int));
        assert(s@.take(i + 1).last() == c);
        if c == sep {
            let piece = String::from_str(s.substring_char(start, i));
            pieces.push(piece);
            start = i + 1;
            assert(spec_strings(pieces@) =~= spec_strings(pieces@.drop_last()).push(piece@));
            assert(s@.subrange(start as int, i + 1) =~= Seq::<char>::empty());
        } else {
            assert(s@.subrange(start as int, i as int).push(c) =~= s@.subrange(
                start as int,
                i + 1,
            ));
            assert(spec_strings(pieces@).push(s@.subrange(start as int, i as int)).update(
                spec_strings(pieces@).len() as int,
                s@.subrange(start as int, i + 1),
            ) =~= spec_strings(pieces@).push(s@.subrange(start as int, i + 1)));
        }
        i = i + 1;
    }
    assert(s@.take(n as int) =~= s@);
    let last = String::from_str(s.substring_char(start, n));
    let ghost before = pieces@;
    pieces.push(last);
    assert(spec_strings(pieces@) =~= spec_strings(before).push(last@));
    pieces
}

/// Whether `s` begins with `prefix`.
pub open spec fn spec_starts_with(s: Seq<char>, prefix: Seq<char>) -> bool {
    prefix.len() <= s.len() && s.take(prefix.len() as int) == prefix
}

/// Whether `s` begins with `prefix`.
pub fn starts_with(s: &str, prefix: &str) -> (b: bool)
    ensures
        b == spec_starts_with(s@, prefix@),
{
    let n = s.unicode_len();
    let m = prefix.unicode_len();
    if m > n {
        return false;
    }
    let mut i: usize = 0;
    while i < m
        invariant
            n == s@.len(),
            m == prefix@.len(),
            m <= n,
            i <= m,
            forall|k: int| 0 <= k < i ==> s@[k] == prefix@[k],
        decreases m - i,
    {
        if s.get_char(i) != prefix.get_char(i) {
            assert(s@.take(m as int)[i as int] != prefix@[i as int]);
            return false;
        }
        i = i + 1;
    }
    assert(s@.take(m as int) =~= prefix@);
    true
}

/// Whether `sub` occurs in `s`.
pub open spec fn spec_contains(s: Seq<char>, sub: Seq<char>) -> bool {
    exists|i: int| 0 <= i <= s.len() - sub.len() && #[trigger] s.subrange(i, i + sub.len()) == sub
}

/// Whether `sub` occurs in `s`.
pub fn contains(s: &str, sub: &str) -> (found: bool)
    ensures
        found == spec_contains(s@, sub@),
{
    let n = s.unicode_len();
    let m = sub.unicode_len();
    if m > n {
        assert forall|i: int| 0 <= i <= s@.len() - sub@.len() implies #[trigger] s@.subrange(
            i,
            i + sub@.len(),
        ) != sub@ by {}
        return false;
    }
    let mut i: usize = 0;
    while i <= n - m
        invariant
            n == s@.len(),
            m == sub@.len(),
            m <= n,
            i <= n - m + 1,
            forall|k: int| 0 <= k < i ==> #[trigger] s@.subrange(k, k + m) != sub@,
        decreases n - m + 1 - i,
    {
        let mut j: usize = 0;
        while j < m
            invariant
                n == s@.len(),
                m == sub@.len(),
                i + m <= n,
                j <= m,
                forall|k: int| 0 <= k < j ==> s@[i + k] == sub@[k],
            ensures
                j <= m,
                forall|k: int| 0 <= k < j ==> s@[i + k] == sub@[k],
                j < m ==> s@[i + j] != sub@[j as int],
            decreases m - j,
        {
            if s.get_char(i + j) != sub.get_char(j) {
                break;
            }
            j = j + 1;
        }
        if j == m {
            assert(s@.subrange(i as int, i + m) =~= sub@);
            return true;
        }
        assert(s@.subrange(i as int, i + m)[j as int] != sub@[j as int]);
        i = i + 1;
    }
    false
}

} // verus!
