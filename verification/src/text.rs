//! Character-level string operations with exact specifications.

use vstd::prelude::*;

verus! {

/// Unicode's `White_Space` property (PropList.txt), which is what
/// `char::is_whitespace` and `str::trim` go by.
pub open spec fn is_white_space(c: char) -> bool {
    let v = c as u32;
    ||| 0x9 <= v <= 0xd
    ||| v == 0x20
    ||| v == 0x85
    ||| v == 0xa0
    ||| v == 0x1680
    ||| 0x2000 <= v <= 0x200a
    ||| v == 0x2028
    ||| v == 0x2029
    ||| v == 0x202f
    ||| v == 0x205f
    ||| v == 0x3000
}

/// Number of white-space characters at the start of `s`.
pub open spec fn leading_white_space(s: Seq<char>) -> nat
    decreases s.len(),
{
    if s.len() > 0 && is_white_space(s[0]) {
        1 + leading_white_space(s.drop_first())
    } else {
        0
    }
}

/// Number of white-space characters at the end of `s`.
pub open spec fn trailing_white_space(s: Seq<char>) -> nat
    decreases s.len(),
{
    if s.len() > 0 && is_white_space(s.last()) {
        1 + trailing_white_space(s.drop_last())
    } else {
        0
    }
}

/// `s` without its leading and trailing white space.
pub open spec fn trimmed(s: Seq<char>) -> Seq<char> {
    let t = s.skip(leading_white_space(s) as int);
    t.take(t.len() - trailing_white_space(t))
}

/// `p` is a prefix of `s`.
pub open spec fn starts_with(s: Seq<char>, p: Seq<char>) -> bool {
    p.len() <= s.len() && s.subrange(0, p.len() as int) == p
}

/// `needle` occurs in `hay` as a contiguous run.
pub open spec fn occurs_in(hay: Seq<char>, needle: Seq<char>) -> bool {
    exists|i: int| 0 <= i <= hay.len() - needle.len() && #[trigger] hay.subrange(i, i + needle.len()) == needle
}

/// `first` is the part of `s` before its first space, and `rest` the part
/// after that space, if there is one.
pub open spec fn splits_at_first_space(s: Seq<char>, first: Seq<char>, rest: Option<Seq<char>>) -> bool {
    &&& !first.contains(' ')
    &&& match rest {
        None => s == first,
        Some(r) => s == first + seq![' '] + r,
    }
}

/// Whether every character of `s` is ASCII.
pub open spec fn all_ascii(s: Seq<char>) -> bool {
    forall|i: int| 0 <= i < s.len() ==> (s[i] as u32) < 128
}

/// The lower-case form of an ASCII character: `A`–`Z` become `a`–`z`,
/// everything else stays.
pub open spec fn ascii_lower(c: char) -> char {
    if 'A' <= c <= 'Z' {
        ((c as u32) + 32) as char
    } else {
        c
    }
}

/// `s` with its ASCII capitals made small.
pub open spec fn ascii_lowercase(s: Seq<char>) -> Seq<char> {
    s.map_values(|c: char| ascii_lower(c))
}

/// What `str::to_lowercase` returns for a string: the Unicode lower-case
/// mapping of every character, one character possibly mapping to several,
/// and a capital sigma mapping by its position in a word (the final-sigma
/// rule).
pub uninterp spec fn lowercase_of(s: Seq<char>) -> Seq<char>;

/// Calls `str::to_lowercase`. The contract names the result
/// `lowercase_of`, a function of the characters of `s`, and states it for
/// ASCII text, where the Unicode mapping makes `A`–`Z` small and keeps
/// every other character (std's own example turns "HELLO" into "hello").
/// The Unicode tables for other characters are not written out.
#[verifier::external_body]
pub(crate) fn to_lowercase(s: &str) -> (res: String)
    ensures
        res@ == lowercase_of(s@),
        all_ascii(s@) ==> res@ == ascii_lowercase(s@),
{
    s.to_lowercase()
}

/// ASCII lower-casing keeps text ASCII and changes nothing the second time.
pub proof fn ascii_lowercase_is_idempotent(s: Seq<char>)
    requires
        all_ascii(s),
    ensures
        all_ascii(ascii_lowercase(s)),
        ascii_lowercase(ascii_lowercase(s)) == ascii_lowercase(s),
{
    assert forall|i: int| 0 <= i < s.len() implies (ascii_lowercase(s)[i] as u32) < 128
        && ascii_lower(ascii_lowercase(s)[i]) == ascii_lowercase(s)[i] by {
        let c = s[i];
        if 'A' <= c <= 'Z' {
            assert((((c as u32) + 32) as char) as u32 == (c as u32) + 32);
        }
    }
    assert(ascii_lowercase(ascii_lowercase(s)) =~= ascii_lowercase(s));
}

/// Whether `c` has the Unicode `White_Space` property.
pub fn is_white_space_char(c: char) -> (b: bool)
    ensures
        b == is_white_space(c),
{
    let v = c as u32;
    (0x9 <= v && v <= 0xd) || v == 0x20 || v == 0x85 || v == 0xa0 || v == 0x1680 || (0x2000 <= v
        && v <= 0x200a) || v == 0x2028 || v == 0x2029 || v == 0x202f || v == 0x205f || v == 0x3000
}

/// `s` without leading and trailing white space, as `str::trim` gives it.
pub fn trim(s: &str) -> (res: &str)
    ensures
        res@ == trimmed(s@),
{
    let n = s.unicode_len();
    let mut i: usize = 0;
    assert(s@.skip(0) =~= s@);
    while i < n && is_white_space_char(s.get_char(i))
        invariant
            n == s@.len(),
            i <= n,
            leading_white_space(s@) == i + leading_white_space(s@.skip(i as int)),
        decreases n - i,
    {
        assert(s@.skip(i as int).drop_first() =~= s@.skip(i + 1));
        i = i + 1;
    }
    assert(leading_white_space(s@.skip(i as int)) == 0);
    let ghost t = s@.skip(i as int);
    let mut j: usize = n - i;
    assert(t.take(j as int) =~= t);
    while j > 0 && is_white_space_char(s.get_char(i + j - 1))
        invariant
            n == s@.len(),
            i <= n,
            j <= n - i,
            t == s@.skip(i as int),
            trailing_white_space(t) == (t.len() - j) + trailing_white_space(t.take(j as int)),
        decreases j,
    {
        assert(t.take(j as int).last() == s@[i + j - 1]);
        assert(t.take(j as int).drop_last() =~= t.take(j - 1));
        j = j - 1;
    }
    assert(j > 0 ==> t.take(j as int).last() == s@[i + j - 1]);
    assert(trailing_white_space(t.take(j as int)) == 0);
    let res = s.substring_char(i, i + j);
    assert(res@ =~= t.take(j as int));
    res
}

/// Whether two strings hold the same characters.
pub fn str_eq(a: &str, b: &str) -> (res: bool)
    ensures
        res == (a@ == b@),
{
    let n = a.unicode_len();
    if n != b.unicode_len() {
        return false;
    }
    let mut i: usize = 0;
    while i < n
        invariant
            n == a@.len(),
            n == b@.len(),
            i <= n,
            forall|k: int| 0 <= k < i ==> a@[k] == b@[k],
        decreases n - i,
    {
        if a.get_char(i) != b.get_char(i) {
            return false;
        }
        i = i + 1;
    }
    assert(a@ =~= b@);
    true
}

/// Whether the characters of `s` from `at` on begin with `p`.
fn matches_at(s: &str, p: &str, at: usize) -> (res: bool)
    requires
        at + p@.len() <= s@.len(),
    ensures
        res == (s@.subrange(at as int, at + p@.len()) == p@),
{
    let _n = s.unicode_len();
    let m = p.unicode_len();
    let mut k: usize = 0;
    while k < m
        invariant
            m == p@.len(),
            _n == s@.len(),
            at + m <= s@.len(),
            k <= m,
            forall|q: int| 0 <= q < k ==> s@[at + q] == p@[q],
        decreases m - k,
    {
        if s.get_char(at + k) != p.get_char(k) {
            assert(s@.subrange(at as int, at + m)[k as int] != p@[k as int]);
            return false;
        }
        k = k + 1;
    }
    assert(s@.subrange(at as int, at + m) =~= p@);
    true
}

/// The rest of `s` after `prefix`, where `s` begins with `prefix`, as
/// `str::strip_prefix` gives it.
pub fn strip_prefix<'a>(s: &'a str, prefix: &str) -> (res: Option<&'a str>)
    ensures
        res is Some <==> starts_with(s@, prefix@),
        res matches Some(rest) ==> rest@ == s@.skip(prefix@.len() as int),
{
    let n = s.unicode_len();
    let m = prefix.unicode_len();
    if m > n {
        return None;
    }
    if matches_at(s, prefix, 0) {
        let rest = s.substring_char(m, n);
        assert(rest@ =~= s@.skip(m as int));
        Some(rest)
    } else {
        None
    }
}

/// Whether `needle` occurs in `hay`, as `str::contains` with a string
/// pattern answers it.
pub fn contains(hay: &str, needle: &str) -> (res: bool)
    ensures
        res == occurs_in(hay@, needle@),
{
    let n = hay.unicode_len();
    let m = needle.unicode_len();
    if m > n {
        return false;
    }
    if m == 0 {
        assert(hay@.subrange(0, 0 + needle@.len() as int) =~= needle@);
        assert(occurs_in(hay@, needle@));
        return true;
    }
    let mut i: usize = 0;
    while i <= n - m
        invariant
            n == hay@.len(),
            m == needle@.len(),
            1 <= m <= n,
            i <= n - m + 1,
            forall|q: int| 0 <= q < i ==> #[trigger] hay@.subrange(q, q + m) != needle@,
        decreases n - m + 1 - i,
    {
        if matches_at(hay, needle, i) {
            return true;
        }
        i = i + 1;
    }
    false
}

/// The part of `s` before its first space and, if there is a space, the
/// part after it.
pub open spec fn space_split(s: Seq<char>) -> (Seq<char>, Option<Seq<char>>)
    decreases s.len(),
{
    if s.len() == 0 {
        (s, None)
    } else if s[0] == ' ' {
        (Seq::empty(), Some(s.drop_first()))
    } else {
        let (f, r) = space_split(s.drop_first());
        (seq![s[0]] + f, r)
    }
}

/// Where the first space of `s` is at `i` (or `s` has none and `i` is its
/// length), `space_split` cuts there.
proof fn lemma_space_split_at(s: Seq<char>, i: int)
    requires
        0 <= i <= s.len(),
        forall|k: int| 0 <= k < i ==> s[k] != ' ',
        i < s.len() ==> s[i] == ' ',
    ensures
        space_split(s) == (s.take(i), if i < s.len() {
            Some(s.skip(i + 1))
        } else {
            None
        }),
    decreases i,
{
    if s.len() == 0 {
        assert(s.take(i) =~= s);
    } else if i == 0 {
        assert(s.take(0) =~= Seq::<char>::empty());
        assert(s.drop_first() =~= s.skip(1));
    } else {
        let t = s.drop_first();
        lemma_space_split_at(t, i - 1);
        assert(seq![s[0]] + t.take(i - 1) =~= s.take(i));
        if i < s.len() {
            assert(t.skip(i) =~= s.skip(i + 1));
        }
    }
}

/// The two parts that `space_split` gives rebuild the string, and the first
/// holds no space.
pub proof fn space_split_rebuilds(s: Seq<char>)
    ensures
        splits_at_first_space(s, space_split(s).0, space_split(s).1),
    decreases s.len(),
{
    if s.len() > 0 && s[0] != ' ' {
        space_split_rebuilds(s.drop_first());
        let (f, r) = space_split(s.drop_first());
        assert(s == seq![s[0]] + s.drop_first());
        match r {
            None => {},
            Some(rr) => {
                assert(seq![s[0]] + f + seq![' '] + rr =~= seq![s[0]] + (f + seq![' '] + rr));
            },
        }
        assert forall|k: int| 0 <= k < (seq![s[0]] + f).len() implies (seq![s[0]] + f)[k] != ' ' by {
            if k > 0 {
                assert((seq![s[0]] + f)[k] == f[k - 1]);
                assert(!f.contains(' '));
            }
        }
    } else if s.len() > 0 {
        assert(s =~= Seq::<char>::empty() + seq![' '] + s.drop_first());
    }
}

/// Splits `s` at its first space, as the first two items of
/// `s.splitn(2, ' ')` do.
pub fn split_first_word(s: &str) -> (res: (&str, Option<&str>))
    ensures
        space_split(s@) == (res.0@, match res.1 {
            Some(r) => Some(r@),
            None => None,
        }),
{
    let n = s.unicode_len();
    let mut i: usize = 0;
    while i < n && s.get_char(i) != ' '
        invariant
            n == s@.len(),
            i <= n,
            forall|k: int| 0 <= k < i ==> s@[k] != ' ',
        decreases n - i,
    {
        i = i + 1;
    }
    proof {
        lemma_space_split_at(s@, i as int);
    }
    let first = s.substring_char(0, i);
    assert(first@ =~= s@.take(i as int));
    if i < n {
        let rest = s.substring_char(i + 1, n);
        assert(rest@ =~= s@.skip(i + 1));
        (first, Some(rest))
    } else {
        (first, None)
    }
}

proof fn lemma_leading_white_space(s: Seq<char>)
    ensures
        leading_white_space(s) <= s.len(),
        forall|k: int| 0 <= k < leading_white_space(s) ==> is_white_space(s[k]),
        leading_white_space(s) < s.len() ==> !is_white_space(s[leading_white_space(s) as int]),
    decreases s.len(),
{
    if s.len() > 0 && is_white_space(s[0]) {
        let t = s.drop_first();
        lemma_leading_white_space(t);
        assert forall|k: int| 0 <= k < leading_white_space(s) implies is_white_space(s[k]) by {
            if k > 0 {
                assert(s[k] == t[k - 1]);
            }
        }
        if leading_white_space(s) < s.len() {
            assert(s[leading_white_space(s) as int] == t[leading_white_space(t) as int]);
        }
    }
}

proof fn lemma_trailing_white_space(s: Seq<char>)
    ensures
        trailing_white_space(s) <= s.len(),
        forall|k: int| s.len() - trailing_white_space(s) <= k < s.len() ==> is_white_space(s[k]),
        trailing_white_space(s) < s.len() ==> !is_white_space(
            s[s.len() - trailing_white_space(s) - 1],
        ),
    decreases s.len(),
{
    if s.len() > 0 && is_white_space(s.last()) {
        let t = s.drop_last();
        lemma_trailing_white_space(t);
        assert forall|k: int| s.len() - trailing_white_space(s) <= k < s.len() implies is_white_space(
            s[k],
        ) by {
            if k < s.len() - 1 {
                assert(s[k] == t[k]);
            }
        }
        if trailing_white_space(s) < s.len() {
            assert(s[s.len() - trailing_white_space(s) - 1] == t[t.len() - trailing_white_space(t)
                - 1]);
        }
    }
}

/// Trimming removes white space at both ends and nothing else: the result
/// is a contiguous part of the text, everything before and after it is
/// white space, and it neither begins nor ends with white space.
pub proof fn trim_removes_only_outer_white_space(s: Seq<char>)
    ensures
        exists|a: int|
            0 <= a && a + trimmed(s).len() <= s.len() && #[trigger] s.subrange(
                a,
                a + trimmed(s).len(),
            ) == trimmed(s) && (forall|k: int| 0 <= k < a ==> is_white_space(s[k])) && (forall|
                k: int,
            |
                a + trimmed(s).len() <= k < s.len() ==> is_white_space(s[k])),
        trimmed(s).len() > 0 ==> !is_white_space(trimmed(s)[0]) && !is_white_space(
            trimmed(s).last(),
        ),
{
    let a = leading_white_space(s) as int;
    lemma_leading_white_space(s);
    let t = s.skip(a);
    lemma_trailing_white_space(t);
    let n = t.len() - trailing_white_space(t);
    assert(trimmed(s) =~= s.subrange(a, a + n));
    assert forall|k: int| a + n <= k < s.len() implies is_white_space(s[k]) by {
        assert(s[k] == t[k - a]);
    }
    if trimmed(s).len() > 0 {
        assert(trimmed(s)[0] == s[a]);
        assert(trimmed(s).last() == t[n - 1]);
    }
    assert(s.subrange(a, a + trimmed(s).len()) == trimmed(s));
}

} // verus!
