//! Character-level text helpers shared by the parsers and builders.
//!
//! Text is handled as sequences of `char`. `trim`, ASCII case mapping and
//! character removal are stated and implemented here; Unicode lowercasing is
//! delegated to std.

use vstd::prelude::*;

verus! {

/// The characters of `s`, in order.
#[verifier::external_body]
pub(crate) fn chars_of(s: &str) -> (r: Vec<char>)
    ensures
        r@ == s@,
{
    s.chars().collect()
}

/// The string made of `cs`, in order.
#[verifier::external_body]
pub(crate) fn string_of(cs: &Vec<char>) -> (r: String)
    ensures
        r@ == cs@,
{
    cs.iter().collect()
}

/// `str` equality, which compares the characters.
#[verifier::external_body]
pub(crate) fn str_eq(a: &str, b: &str) -> (r: bool)
    ensures
        r == (a@ == b@),
{
    a == b
}

/// A copy of `s`.
pub(crate) fn string_from(s: &str) -> (r: String)
    ensures
        r@ == s@,
{
    s.to_owned()
}

/// What `str::to_lowercase` returns: the Unicode lowercase mapping of `s`.
pub uninterp spec fn unicode_lowercase(s: Seq<char>) -> Seq<char>;

/// ASCII lowercase of one character (`A`..`Z` to `a`..`z`, others unchanged).
pub open spec fn ascii_lower(c: char) -> char {
    if 'A' <= c <= 'Z' {
        ((c as u32) + 32) as char
    } else {
        c
    }
}

/// ASCII uppercase of one character (`a`..`z` to `A`..`Z`, others unchanged).
pub open spec fn ascii_upper(c: char) -> char {
    if 'a' <= c <= 'z' {
        ((c as u32) - 32) as char
    } else {
        c
    }
}

/// Calls `str::to_lowercase`. Claimed of it: the result is the Unicode
/// lowercase mapping of `s` (named `unicode_lowercase`), and on all-ASCII text
/// that mapping is the ASCII one, character for character.
#[verifier::external_body]
pub(crate) fn to_lowercase(s: &str) -> (r: String)
    ensures
        r@ == unicode_lowercase(s@),
        vstd::utf8::is_ascii_chars(s@) ==> r@ == s@.map_values(|c: char| ascii_lower(c)),
{
    s.to_lowercase()
}

/// The Unicode `White_Space` property, which `char::is_whitespace` and
/// `str::trim` use.
pub open spec fn is_ws(c: char) -> bool {
    let u = c as u32;
    ||| 0x09 <= u <= 0x0D
    ||| u == 0x20
    ||| u == 0x85
    ||| u == 0xA0
    ||| u == 0x1680
    ||| 0x2000 <= u <= 0x200A
    ||| u == 0x2028
    ||| u == 0x2029
    ||| u == 0x202F
    ||| u == 0x205F
    ||| u == 0x3000
}

pub fn is_whitespace(c: char) -> (r: bool)
    ensures
        r == is_ws(c),
{
    let u = c as u32;
    (0x09 <= u && u <= 0x0D) || u == 0x20 || u == 0x85 || u == 0xA0 || u == 0x1680 || (0x2000
        <= u && u <= 0x200A) || u == 0x2028 || u == 0x2029 || u == 0x202F || u == 0x205F || u
        == 0x3000
}

/// `s` without its leading whitespace.
pub open spec fn trim_start(s: Seq<char>) -> Seq<char>
    decreases s.len(),
{
    if s.len() > 0 && is_ws(s[0]) {
        trim_start(s.drop_first())
    } else {
        s
    }
}

/// `s` without its trailing whitespace.
pub open spec fn trim_end(s: Seq<char>) -> Seq<char>
    decreases s.len(),
{
    if s.len() > 0 && is_ws(s.last()) {
        trim_end(s.drop_last())
    } else {
        s
    }
}

/// `s` without leading and trailing whitespace, as `str::trim` gives it.
pub open spec fn trim(s: Seq<char>) -> Seq<char> {
    trim_end(trim_start(s))
}

/// The characters of `s` in `[lo, hi)`.
pub fn copy_range(s: &Vec<char>, lo: usize, hi: usize) -> (r: Vec<char>)
    requires
        lo <= hi <= s.len(),
    ensures
        r@ == s@.subrange(lo as int, hi as int),
{
    let mut r: Vec<char> = Vec::new();
    let mut i = lo;
    while i < hi
        invariant
            lo <= i <= hi <= s.len(),
            r@ == s@.subrange(lo as int, i as int),
        decreases hi - i,
    {
        r.push(s[i]);
        proof {
            assert(s@.subrange(lo as int, i + 1) =~= s@.subrange(lo as int, i as int).push(s@[i as int]));
        }
        i = i + 1;
    }
    r
}

/// `s` trimmed of leading and trailing whitespace.
pub fn trim_chars(s: &Vec<char>) -> (r: Vec<char>)
    ensures
        r@ == trim(s@),
{
    let n = s.len();
    let mut i: usize = 0;
    assert(s@.subrange(0, n as int) =~= s@);
    while i < n && is_whitespace(s[i])
        invariant
            i <= n == s.len(),
            trim_start(s@) == trim_start(s@.subrange(i as int, n as int)),
        decreases n - i,
    {
        proof {
            let t = s@.subrange(i as int, n as int);
            assert(t.drop_first() =~= s@.subrange(i + 1, n as int));
        }
        i = i + 1;
    }
    assert(trim_start(s@) == s@.subrange(i as int, n as int));
    let mut j: usize = n;
    while j > i && is_whitespace(s[j - 1])
        invariant
            i <= j <= n == s.len(),
            trim(s@) == trim_end(s@.subrange(i as int, j as int)),
        decreases j - i,
    {
        proof {
            let t = s@.subrange(i as int, j as int);
            assert(t.drop_last() =~= s@.subrange(i as int, j - 1));
        }
        j = j - 1;
    }
    copy_range(s, i, j)
}

/// `s` trimmed, as a string.
pub fn trim_str(s: &str) -> (r: String)
    ensures
        r@ == trim(s@),
{
    let cs = chars_of(s);
    let t = trim_chars(&cs);
    string_of(&t)
}

/// Every character of `s` mapped to ASCII uppercase.
pub fn to_ascii_uppercase(s: &Vec<char>) -> (r: Vec<char>)
    ensures
        r@ == s@.map_values(|c: char| ascii_upper(c)),
{
    let mut r: Vec<char> = Vec::new();
    let mut i: usize = 0;
    while i < s.len()
        invariant
            i <= s.len(),
            r@ == s@.subrange(0, i as int).map_values(|c: char| ascii_upper(c)),
        decreases s.len() - i,
    {
        let c = s[i];
        let u = if 'a' <= c && c <= 'z' {
            let code = (c as u32) - 32;
            assert(0x41 <= code <= 0x5A);
            char_from_ascii(code)
        } else {
            c
        };
        r.push(u);
        proof {
            assert(s@.subrange(0, i + 1) =~= s@.subrange(0, i as int).push(c));
            assert(s@.subrange(0, i + 1).map_values(|c: char| ascii_upper(c)) =~= s@.subrange(
                0,
                i as int,
            ).map_values(|c: char| ascii_upper(c)).push(ascii_upper(c)));
        }
        i = i + 1;
    }
    proof {
        assert(s@.subrange(0, s.len() as int) =~= s@);
    }
    r
}

/// The character with ASCII code `code`.
pub fn char_from_ascii(code: u32) -> (r: char)
    requires
        code < 128,
    ensures
        r as u32 == code,
        r == code as char,
{
    let b = code as u8;
    b as char
}

/// `s` with every occurrence of `c` removed.
pub open spec fn remove_char(s: Seq<char>, c: char) -> Seq<char> {
    s.filter(|x: char| x != c)
}

/// `s` with every occurrence of `c` removed, as `str::replace(c, "")` gives it.
pub fn remove_all(s: &Vec<char>, c: char) -> (r: Vec<char>)
    ensures
        r@ == remove_char(s@, c),
{
    let mut r: Vec<char> = Vec::new();
    let mut i: usize = 0;
    while i < s.len()
        invariant
            i <= s.len(),
            r@ == remove_char(s@.subrange(0, i as int), c),
        decreases s.len() - i,
    {
        proof {
            let t = s@.subrange(0, i + 1);
            assert(t.drop_last() =~= s@.subrange(0, i as int));
            reveal(Seq::filter);
        }
        if s[i] != c {
            r.push(s[i]);
        }
        i = i + 1;
    }
    proof {
        assert(s@.subrange(0, s.len() as int) =~= s@);
    }
    r
}

/// Character sequence equality.
pub fn chars_eq(a: &Vec<char>, b: &Vec<char>) -> (r: bool)
    ensures
        r == (a@ == b@),
{
    if a.len() != b.len() {
        return false;
    }
    let mut i: usize = 0;
    while i < a.len()
        invariant
            i <= a.len() == b.len(),
            forall|k: int| 0 <= k < i ==> a@[k] == b@[k],
        decreases a.len() - i,
    {
        if a[i] != b[i] {
            return false;
        }
        i = i + 1;
    }
    assert(a@ =~= b@);
    true
}

/// A lowercase label (ASCII lowercase letters and `_`).
pub open spec fn is_label_char(c: char) -> bool {
    ('a' <= c <= 'z') || c == '_'
}

/// A label of lowercase letters and underscores is its own lowercase.
pub proof fn lemma_lowercase_label(s: Seq<char>)
    requires
        forall|i: int| 0 <= i < s.len() ==> is_label_char(#[trigger] s[i]),
    ensures
        lower_text(s) == s,
{
    assert(vstd::utf8::is_ascii_chars(s));
    assert(s.map_values(|c: char| ascii_lower(c)) =~= s);
}

/// The lowercase of `s` as `str::to_lowercase` gives it: on all-ASCII text the
/// ASCII mapping, otherwise the Unicode mapping.
pub open spec fn lower_text(s: Seq<char>) -> Seq<char> {
    if vstd::utf8::is_ascii_chars(s) {
        s.map_values(|c: char| ascii_lower(c))
    } else {
        unicode_lowercase(s)
    }
}

/// Lowercase `s` (Unicode rules; ASCII text is mapped here directly).
pub fn lowercase(s: &str) -> (r: String)
    ensures
        r@ == lower_text(s@),
{
    let cs = chars_of(s);
    let mut out: Vec<char> = Vec::new();
    let mut i: usize = 0;
    while i < cs.len()
        invariant
            i <= cs.len(),
            cs@ == s@,
            forall|k: int| 0 <= k < i ==> '\0' <= #[trigger] cs@[k] <= '\u{7f}',
            out@ == cs@.subrange(0, i as int).map_values(|c: char| ascii_lower(c)),
        decreases cs.len() - i,
    {
        let c = cs[i];
        if !(c <= '\u{7f}') {
            proof {
                assert(!vstd::utf8::is_ascii_chars(s@));
            }
            return to_lowercase(s);
        }
        let l = if 'A' <= c && c <= 'Z' {
            char_from_ascii((c as u32) + 32)
        } else {
            c
        };
        out.push(l);
        proof {
            assert(cs@.subrange(0, i + 1) =~= cs@.subrange(0, i as int).push(c));
            assert(cs@.subrange(0, i + 1).map_values(|c: char| ascii_lower(c)) =~= cs@.subrange(
                0,
                i as int,
            ).map_values(|c: char| ascii_lower(c)).push(ascii_lower(c)));
        }
        i = i + 1;
    }
    proof {
        assert(cs@.subrange(0, cs.len() as int) =~= cs@);
    }
    string_of(&out)
}

/// The view of an optional owned text.
pub open spec fn ostr(o: Option<String>) -> Option<Seq<char>> {
    match o {
        Some(t) => Some(t@),
        None => None,
    }
}

/// A copy of an optional owned text.
pub fn clone_opt(o: &Option<String>) -> (r: Option<String>)
    ensures
        r == *o,
        ostr(r) == ostr(*o),
{
    match o {
        Some(t) => Some(t.clone()),
        None => None,
    }
}

} // verus!
