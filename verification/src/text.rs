//! Character-level helpers for the assembler and the emulator: whitespace,
//! trimming, searching, number parsing and number formatting, each specified
//! over `Seq<char>`.

use vstd::prelude::*;

verus! {

// ---------------------------------------------------------------------------
// Strings
// ---------------------------------------------------------------------------

/// Appends one character to a string (`String::push`).
#[verifier::external_body]
pub fn push_char(s: &mut String, c: char)
    ensures
        final(s)@ == old(s)@.push(c),
{
    s.push(c);
}

/// Appends a string slice to a string.
pub fn push_str(s: &mut String, t: &str)
    ensures
        final(s)@ == old(s)@ + t@,
{
    s.append(t);
}

/// The characters of a string slice, in order.
pub fn chars_of(s: &str) -> (v: Vec<char>)
    ensures
        v@ == s@,
{
    let mut v: Vec<char> = Vec::new();
    for c in it: s.chars()
        invariant
            v@ == it.seq().take(it.index() as int),
            it.seq() == s@,
    {
        v.push(c);
    }
    v
}

/// A string made of the given characters.
pub fn string_from_chars(v: &[char]) -> (s: String)
    ensures
        s@ == v@,
{
    let mut s = String::new();
    let mut i: usize = 0;
    while i < v.len()
        invariant
            i <= v.len(),
            s@ == v@.take(i as int),
        decreases v.len() - i,
    {
        push_char(&mut s, v[i]);
        assert(v@.take(i as int).push(v@[i as int]) =~= v@.take(i + 1));
        i = i + 1;
    }
    assert(v@.take(v.len() as int) =~= v@);
    s
}

/// A string holding a copy of the text of `t`.
pub fn string_from_str(t: &str) -> (s: String)
    ensures
        s@ == t@,
{
    let mut s = String::new();
    push_str(&mut s, t);
    assert(s@ =~= t@);
    s
}

/// A copy of a string.
pub fn copy_string(t: &String) -> (s: String)
    ensures
        s@ == t@,
{
    t.clone()
}

/// Whether two strings hold the same text.
pub fn same_text(a: &String, b: &String) -> (r: bool)
    ensures
        r == (a@ == b@),
{
    a.eq(b)
}

/// Whether `r` is an error whose text is `msg`.
pub open spec fn err_is<T>(r: Result<T, String>, msg: Seq<char>) -> bool {
    r matches Err(e) && e@ == msg
}

/// Whether `r` is the executable form of `s`: the same value, or an error
/// with the same text.
pub open spec fn result_is<T>(r: Result<T, String>, s: Result<T, Seq<char>>) -> bool {
    match s {
        Ok(v) => r == Ok::<T, String>(v),
        Err(e) => r matches Err(msg) && msg@ == e,
    }
}

/// Whether the text of `s` equals `t`.
pub fn text_is(s: &String, t: &str) -> (r: bool)
    ensures
        r == (s@ == t@),
{
    let v = chars_of(s.as_str());
    chars_equal_str(v.as_slice(), t)
}

/// Whether the text of `s` starts with the character `c`.
pub fn starts_with_char(s: &String, c: char) -> (r: bool)
    ensures
        r == (s@.len() > 0 && s@[0] == c),
{
    let v = chars_of(s.as_str());
    v.len() > 0 && v[0] == c
}

// ---------------------------------------------------------------------------
// Whitespace and trimming
// ---------------------------------------------------------------------------

/// The characters that Rust's `char::is_whitespace` accepts: the Unicode
/// `White_Space` property.
pub open spec fn is_ws(c: char) -> bool {
    let u = c as u32;
    ||| u == 0x20
    ||| (0x09 <= u && u <= 0x0D)
    ||| u == 0x85
    ||| u == 0xA0
    ||| u == 0x1680
    ||| (0x2000 <= u && u <= 0x200A)
    ||| u == 0x2028
    ||| u == 0x2029
    ||| u == 0x202F
    ||| u == 0x205F
    ||| u == 0x3000
}

/// Whether `c` is a whitespace character.
pub fn is_whitespace(c: char) -> (r: bool)
    ensures
        r == is_ws(c),
{
    let u = c as u32;
    u == 0x20 || (0x09 <= u && u <= 0x0D) || u == 0x85 || u == 0xA0 || u == 0x1680 || (0x2000
        <= u && u <= 0x200A) || u == 0x2028 || u == 0x2029 || u == 0x202F || u == 0x205F || u
        == 0x3000
}

/// `s` with its leading whitespace removed.
pub open spec fn trim_start(s: Seq<char>) -> Seq<char>
    decreases s.len(),
{
    if s.len() > 0 && is_ws(s[0]) {
        trim_start(s.drop_first())
    } else {
        s
    }
}

/// `s` with its trailing whitespace removed.
pub open spec fn trim_end(s: Seq<char>) -> Seq<char>
    decreases s.len(),
{
    if s.len() > 0 && is_ws(s.last()) {
        trim_end(s.drop_last())
    } else {
        s
    }
}

/// `s` with leading and trailing whitespace removed (`str::trim`).
pub open spec fn trim(s: Seq<char>) -> Seq<char> {
    trim_end(trim_start(s))
}

/// Whether some character of `s` is whitespace.
pub open spec fn has_ws(s: Seq<char>) -> bool {
    exists|i: int| 0 <= i < s.len() && is_ws(#[trigger] s[i])
}

/// The bounds of the trimmed part of `s[lo..hi]`.
pub fn trim_bounds(s: &[char], lo: usize, hi: usize) -> (r: (usize, usize))
    requires
        lo <= hi <= s@.len(),
    ensures
        lo <= r.0 <= r.1 <= hi,
        s@.subrange(r.0 as int, r.1 as int) == trim(s@.subrange(lo as int, hi as int)),
{
    let mut a = lo;
    while a < hi && is_whitespace(s[a])
        invariant
            lo <= a <= hi <= s@.len(),
            trim_start(s@.subrange(lo as int, hi as int)) == trim_start(
                s@.subrange(a as int, hi as int),
            ),
        decreases hi - a,
    {
        assert(s@.subrange(a as int, hi as int).drop_first() =~= s@.subrange(
            a + 1,
            hi as int,
        ));
        a = a + 1;
    }
    assert(trim_start(s@.subrange(a as int, hi as int)) == s@.subrange(a as int, hi as int));
    let mut b = hi;
    while b > a && is_whitespace(s[b - 1])
        invariant
            lo <= a <= b <= hi <= s@.len(),
            trim_end(s@.subrange(a as int, hi as int)) == trim_end(
                s@.subrange(a as int, b as int),
            ),
        decreases b - a,
    {
        assert(s@.subrange(a as int, b as int).drop_last() =~= s@.subrange(
            a as int,
            b - 1,
        ));
        b = b - 1;
    }
    (a, b)
}

/// The trimmed text of a slice of characters.
pub fn trim_chars(s: &[char]) -> (r: Vec<char>)
    ensures
        r@ == trim(s@),
{
    let (a, b) = trim_bounds(s, 0, s.len());
    assert(s@.subrange(0, s@.len() as int) =~= s@);
    copy_range(s, a, b)
}

/// A copy of `s[lo..hi]`.
pub fn copy_range(s: &[char], lo: usize, hi: usize) -> (r: Vec<char>)
    requires
        lo <= hi <= s@.len(),
    ensures
        r@ == s@.subrange(lo as int, hi as int),
{
    let mut r: Vec<char> = Vec::new();
    let mut i = lo;
    while i < hi
        invariant
            lo <= i <= hi <= s@.len(),
            r@ == s@.subrange(lo as int, i as int),
        decreases hi - i,
    {
        r.push(s[i]);
        assert(s@.subrange(lo as int, i as int).push(s@[i as int]) =~= s@.subrange(
            lo as int,
            i + 1,
        ));
        i = i + 1;
    }
    r
}

/// Whether some character of `s[lo..hi]` is whitespace.
pub fn contains_whitespace(s: &[char], lo: usize, hi: usize) -> (r: bool)
    requires
        lo <= hi <= s@.len(),
    ensures
        r == has_ws(s@.subrange(lo as int, hi as int)),
{
    let mut i = lo;
    while i < hi
        invariant
            lo <= i <= hi <= s@.len(),
            forall|j: int| lo <= j < i ==> !is_ws(s@[j]),
        decreases hi - i,
    {
        if is_whitespace(s[i]) {
            assert(is_ws(s@.subrange(lo as int, hi as int)[i - lo]));
            return true;
        }
        i = i + 1;
    }
    assert forall|k: int| 0 <= k < hi - lo implies !is_ws(
        #[trigger] s@.subrange(lo as int, hi as int)[k],
    ) by {
        assert(s@.subrange(lo as int, hi as int)[k] == s@[lo + k]);
    }
    false
}

// ---------------------------------------------------------------------------
// Searching
// ---------------------------------------------------------------------------

/// The index of the first `c` in `s`, if any.
pub open spec fn first_index_of(s: Seq<char>, c: char) -> Option<int>
    decreases s.len(),
{
    if s.len() == 0 {
        None
    } else if s[0] == c {
        Some(0)
    } else {
        match first_index_of(s.drop_first(), c) {
            Some(i) => Some(i + 1),
            None => None,
        }
    }
}

/// Facts about `first_index_of`.
pub proof fn lemma_first_index_of(s: Seq<char>, c: char)
    ensures
        first_index_of(s, c) matches Some(i) ==> 0 <= i < s.len() && s[i] == c && forall|j: int|
            0 <= j < i ==> s[j] != c,
        first_index_of(s, c) is None ==> forall|j: int| 0 <= j < s.len() ==> s[j] != c,
    decreases s.len(),
{
    if s.len() > 0 && s[0] != c {
        lemma_first_index_of(s.drop_first(), c);
        if let Some(i) = first_index_of(s.drop_first(), c) {
            assert forall|j: int| 0 <= j < i + 1 implies s[j] != c by {
                if j > 0 {
                    assert(s[j] == s.drop_first()[j - 1]);
                }
            }
        } else {
            assert forall|j: int| 0 <= j < s.len() implies s[j] != c by {
                if j > 0 {
                    assert(s[j] == s.drop_first()[j - 1]);
                }
            }
        }
    }
}

/// `first_index_of` is determined by the position of the first match.
pub proof fn lemma_first_index_of_unique(s: Seq<char>, c: char, i: int)
    requires
        0 <= i <= s.len(),
        forall|j: int| 0 <= j < i ==> s[j] != c,
    ensures
        i < s.len() && s[i] == c ==> first_index_of(s, c) == Some(i),
        i == s.len() ==> first_index_of(s, c) is None,
    decreases i,
{
    if i > 0 {
        assert forall|j: int| 0 <= j < i - 1 implies s.drop_first()[j] != c by {
            assert(s.drop_first()[j] == s[j + 1]);
        }
        lemma_first_index_of_unique(s.drop_first(), c, i - 1);
    } else if s.len() > 0 {
    }
}

/// Finds the first `c` in `s[lo..hi]`, as an absolute index.
pub fn find_char(s: &[char], lo: usize, hi: usize, c: char) -> (r: Option<usize>)
    requires
        lo <= hi <= s@.len(),
    ensures
        r matches Some(i) ==> first_index_of(s@.subrange(lo as int, hi as int), c) == Some(
            i - lo,
        ) && lo <= i < hi,
        r is None ==> first_index_of(s@.subrange(lo as int, hi as int), c) is None,
{
    let ghost sub = s@.subrange(lo as int, hi as int);
    let mut i = lo;
    while i < hi
        invariant
            lo <= i <= hi <= s@.len(),
            sub == s@.subrange(lo as int, hi as int),
            forall|j: int| lo <= j < i ==> s@[j] != c,
        decreases hi - i,
    {
        if s[i] == c {
            proof {
                assert forall|j: int| 0 <= j < i - lo implies sub[j] != c by {
                    assert(sub[j] == s@[lo + j]);
                }
                lemma_first_index_of_unique(sub, c, i - lo);
            }
            return Some(i);
        }
        i = i + 1;
    }
    proof {
        assert forall|j: int| 0 <= j < hi - lo implies sub[j] != c by {
            assert(sub[j] == s@[lo + j]);
        }
        lemma_first_index_of_unique(sub, c, hi - lo);
    }
    None
}

/// The index of the first whitespace character in `s`, if any.
pub open spec fn first_ws_index(s: Seq<char>) -> Option<int>
    decreases s.len(),
{
    if s.len() == 0 {
        None
    } else if is_ws(s[0]) {
        Some(0)
    } else {
        match first_ws_index(s.drop_first()) {
            Some(i) => Some(i + 1),
            None => None,
        }
    }
}

/// `first_ws_index` is determined by the position of the first whitespace.
pub proof fn lemma_first_ws_index_unique(s: Seq<char>, i: int)
    requires
        0 <= i <= s.len(),
        forall|j: int| 0 <= j < i ==> !is_ws(s[j]),
    ensures
        i < s.len() && is_ws(s[i]) ==> first_ws_index(s) == Some(i),
        i == s.len() ==> first_ws_index(s) is None,
    decreases i,
{
    if i > 0 {
        assert forall|j: int| 0 <= j < i - 1 implies !is_ws(s.drop_first()[j]) by {
            assert(s.drop_first()[j] == s[j + 1]);
        }
        lemma_first_ws_index_unique(s.drop_first(), i - 1);
    }
}

/// Facts about `first_ws_index`.
pub proof fn lemma_first_ws_index(s: Seq<char>)
    ensures
        first_ws_index(s) matches Some(i) ==> 0 <= i < s.len() && is_ws(s[i]) && forall|j: int|
            0 <= j < i ==> !is_ws(s[j]),
        first_ws_index(s) is None ==> !has_ws(s),
    decreases s.len(),
{
    if s.len() > 0 && !is_ws(s[0]) {
        lemma_first_ws_index(s.drop_first());
        if let Some(i) = first_ws_index(s.drop_first()) {
            assert forall|j: int| 0 <= j < i + 1 implies !is_ws(s[j]) by {
                if j > 0 {
                    assert(s[j] == s.drop_first()[j - 1]);
                }
            }
        } else {
            assert forall|j: int| 0 <= j < s.len() implies !is_ws(#[trigger] s[j]) by {
                if j > 0 {
                    assert(s[j] == s.drop_first()[j - 1]);
                    assert(!has_ws(s.drop_first()));
                }
            }
        }
    }
}

/// Finds the first whitespace character in `s[lo..hi]`, as an absolute index.
pub fn find_whitespace(s: &[char], lo: usize, hi: usize) -> (r: Option<usize>)
    requires
        lo <= hi <= s@.len(),
    ensures
        r matches Some(i) ==> first_ws_index(s@.subrange(lo as int, hi as int)) == Some(i - lo)
            && lo <= i < hi,
        r is None ==> first_ws_index(s@.subrange(lo as int, hi as int)) is None,
{
    let ghost sub = s@.subrange(lo as int, hi as int);
    let mut i = lo;
    while i < hi
        invariant
            lo <= i <= hi <= s@.len(),
            sub == s@.subrange(lo as int, hi as int),
            forall|j: int| lo <= j < i ==> !is_ws(s@[j]),
        decreases hi - i,
    {
        if is_whitespace(s[i]) {
            proof {
                assert forall|j: int| 0 <= j < i - lo implies !is_ws(sub[j]) by {
                    assert(sub[j] == s@[lo + j]);
                }
                lemma_first_ws_index_unique(sub, i - lo);
            }
            return Some(i);
        }
        i = i + 1;
    }
    proof {
        assert forall|j: int| 0 <= j < hi - lo implies !is_ws(sub[j]) by {
            assert(sub[j] == s@[lo + j]);
        }
        lemma_first_ws_index_unique(sub, hi - lo);
    }
    None
}

/// Whether `s[lo..hi]` equals `t`.
pub fn range_equals(s: &[char], lo: usize, hi: usize, t: &[char]) -> (r: bool)
    requires
        lo <= hi <= s@.len(),
    ensures
        r == (s@.subrange(lo as int, hi as int) == t@),
{
    if hi - lo != t.len() {
        return false;
    }
    let mut i: usize = 0;
    while i < t.len()
        invariant
            hi - lo == t@.len(),
            lo <= hi <= s@.len(),
            i <= t@.len(),
            forall|j: int| 0 <= j < i ==> s@[lo + j] == t@[j],
        decreases t.len() - i,
    {
        if s[lo + i] != t[i] {
            assert(s@.subrange(lo as int, hi as int)[i as int] != t@[i as int]);
            return false;
        }
        i = i + 1;
    }
    assert(s@.subrange(lo as int, hi as int) =~= t@);
    true
}

/// Whether the text of `s` equals the text of `t`.
pub fn chars_equal_str(s: &[char], t: &str) -> (r: bool)
    ensures
        r == (s@ == t@),
{
    let tv = chars_of(t);
    let r = range_equals(s, 0, s.len(), tv.as_slice());
    assert(s@.subrange(0, s@.len() as int) =~= s@);
    r
}

// ---------------------------------------------------------------------------
// Case
// ---------------------------------------------------------------------------

/// The lower-case form of a character, where that form is a single ASCII
/// character: ASCII capitals, and the Kelvin sign, whose lower case is `k`.
/// Every other character maps to itself.
pub open spec fn lower_char(c: char) -> char {
    let u = c as u32;
    if 0x41 <= u && u <= 0x5A {
        ((u + 32) as u32) as char
    } else if u == 0x212A {
        'k'
    } else {
        c
    }
}

/// Whether `s`, put in lower case, is the ASCII lower-case word `t`.
///
/// Rust's `to_lowercase` maps a character to an ASCII letter only from an
/// ASCII capital or from the Kelvin sign; every other character it leaves
/// non-ASCII, so for an ASCII lower-case `t` this is exactly
/// `s.to_lowercase() == t`.
pub open spec fn lowercase_is(s: Seq<char>, t: Seq<char>) -> bool {
    s.len() == t.len() && forall|i: int| 0 <= i < s.len() ==> lower_char(s[i]) == t[i]
}

/// The lower-case form of a character (see `lower_char`).
pub fn lower(c: char) -> (r: char)
    ensures
        r == lower_char(c),
{
    let u = c as u32;
    if 0x41 <= u && u <= 0x5A {
        let l: u8 = (u + 32) as u8;
        let r = l as char;
        assert(r == ((u + 32) as u32) as char);
        r
    } else if u == 0x212A {
        'k'
    } else {
        c
    }
}

/// Whether `s[lo..hi]`, put in lower case, is the text of `t`.
pub fn range_lowercase_is(s: &[char], lo: usize, hi: usize, t: &str) -> (r: bool)
    requires
        lo <= hi <= s@.len(),
    ensures
        r == lowercase_is(s@.subrange(lo as int, hi as int), t@),
{
    let tv = chars_of(t);
    if hi - lo != tv.len() {
        return false;
    }
    let mut i: usize = 0;
    while i < tv.len()
        invariant
            hi - lo == tv@.len(),
            tv@ == t@,
            lo <= hi <= s@.len(),
            i <= tv@.len(),
            forall|j: int| 0 <= j < i ==> lower_char(s@[lo + j]) == tv@[j],
        decreases tv.len() - i,
    {
        if lower(s[lo + i]) != tv[i] {
            assert(lower_char(s@.subrange(lo as int, hi as int)[i as int]) != t@[i as int]);
            return false;
        }
        i = i + 1;
    }
    assert forall|j: int| 0 <= j < hi - lo implies lower_char(
        s@.subrange(lo as int, hi as int)[j],
    ) == t@[j] by {
        assert(s@.subrange(lo as int, hi as int)[j] == s@[lo + j]);
    }
    true
}

/// Whether `s`, put in lower case, is the text of `t`.
pub fn lowercase_equals(s: &[char], t: &str) -> (r: bool)
    ensures
        r == lowercase_is(s@, t@),
{
    let r = range_lowercase_is(s, 0, s.len(), t);
    assert(s@.subrange(0, s@.len() as int) =~= s@);
    r
}

// ---------------------------------------------------------------------------
// Parsing unsigned integers (`u32::from_str_radix`)
// ---------------------------------------------------------------------------

/// The value of a digit character in the given radix (`char::to_digit`).
pub open spec fn digit_value(c: char, radix: nat) -> Option<nat> {
    let u = c as u32;
    let d: int = if 0x30 <= u && u <= 0x39 {
        u - 0x30
    } else if 0x61 <= u && u <= 0x7A {
        u - 0x61 + 10
    } else if 0x41 <= u && u <= 0x5A {
        u - 0x41 + 10
    } else {
        99
    };
    if d < radix {
        Some(d as nat)
    } else {
        None
    }
}

/// Whether every character of `s` is a digit in the radix.
pub open spec fn all_digits(s: Seq<char>, radix: nat) -> bool {
    forall|i: int| 0 <= i < s.len() ==> #[trigger] digit_value(s[i], radix) is Some
}

/// The value of a string of digits, most significant first.
pub open spec fn digits_value(s: Seq<char>, radix: nat) -> nat
    decreases s.len(),
{
    if s.len() == 0 {
        0
    } else {
        digits_value(s.drop_last(), radix) * radix + match digit_value(s.last(), radix) {
            Some(d) => d,
            None => 0,
        }
    }
}

/// The digits of an unsigned number text: a single leading `+` is dropped
/// when more follows it.
pub open spec fn unsigned_digits(s: Seq<char>) -> Seq<char> {
    if s.len() > 1 && s[0] == '+' {
        s.drop_first()
    } else {
        s
    }
}

/// What `u32::from_str_radix(s, radix)` returns, as an option: a non-empty
/// string of digits (after an optional `+`) whose value fits in 32 bits.
pub open spec fn parse_u32_radix(s: Seq<char>, radix: nat) -> Option<u32> {
    let d = unsigned_digits(s);
    if s.len() > 0 && all_digits(d, radix) && digits_value(d, radix) <= u32::MAX {
        Some(digits_value(d, radix) as u32)
    } else {
        None
    }
}

/// What `s.parse::<u32>()` returns, as an option.
pub open spec fn parse_u32(s: Seq<char>) -> Option<u32> {
    parse_u32_radix(s, 10)
}

/// What `s.parse::<u16>()` (or `u16::from_str_radix`) returns, as an option.
pub open spec fn parse_u16_radix(s: Seq<char>, radix: nat) -> Option<u16> {
    match parse_u32_radix(s, radix) {
        Some(v) => if v <= u16::MAX {
            Some(v as u16)
        } else {
            None
        },
        None => None,
    }
}

/// What `s.parse::<usize>()` returns, as an option.
pub open spec fn parse_usize(s: Seq<char>) -> Option<usize> {
    let d = unsigned_digits(s);
    if s.len() > 0 && all_digits(d, 10) && digits_value(d, 10) <= usize::MAX {
        Some(digits_value(d, 10) as usize)
    } else {
        None
    }
}

/// Whether `c` is an ASCII decimal digit.
pub open spec fn is_digit(c: char) -> bool {
    '0' <= c <= '9'
}

/// Whether `c` is an ASCII decimal digit (`char::is_ascii_digit`).
pub fn is_ascii_digit(c: char) -> (r: bool)
    ensures
        r == is_digit(c),
{
    '0' <= c && c <= '9'
}

/// A copy of `s` without its last character, if it has one.
pub fn without_last_char(s: &String) -> (r: String)
    ensures
        r@ == (if s@.len() > 0 {
            s@.drop_last()
        } else {
            s@
        }),
{
    let v = chars_of(s.as_str());
    if v.len() > 0 {
        let r = string_from_chars(&v.as_slice()[0..v.len() - 1]);
        assert(v@.subrange(0, v@.len() - 1) =~= s@.drop_last());
        r
    } else {
        copy_string(s)
    }
}

/// The one-character string `c`.
pub fn string_of_char(c: char) -> (r: String)
    ensures
        r@ == seq![c],
{
    let mut r = String::new();
    push_char(&mut r, c);
    assert(r@ =~= seq![c]);
    r
}

/// The decimal text of `v` (`v.to_string()`).
pub fn usize_text(v: usize) -> (r: String)
    ensures
        r@ == dec_text(v as nat),
{
    let mut r = String::new();
    push_dec(&mut r, v as u64);
    assert(r@ =~= dec_text(v as nat));
    r
}

/// Parses `s` as `s.parse::<usize>()` does.
pub fn parse_usize_text(s: &String) -> (r: Option<usize>)
    ensures
        r == parse_usize(s@),
{
    let v = chars_of(s.as_str());
    let hi = v.len();
    let sl = v.as_slice();
    let ghost sub = v@;
    if hi == 0 {
        return None;
    }
    let start: usize = if hi > 1 && sl[0] == '+' {
        1
    } else {
        0
    };
    let ghost d = sub.subrange(start as int, hi as int);
    assert(unsigned_digits(sub) =~= d);
    let mut value: u128 = 0;
    let mut i = start;
    while i < hi
        invariant
            start <= i <= hi == sub.len(),
            sub == v@,
            sub == s@,
            sl@ == v@,
            d == sub.subrange(start as int, hi as int),
            unsigned_digits(sub) == d,
            sub.len() > 0,
            all_digits(d.take(i - start), 10),
            value == digits_value(d.take(i - start), 10),
            value <= usize::MAX,
        decreases hi - i,
    {
        let dig = to_digit(sl[i], 10);
        match dig {
            None => {
                assert(digit_value(d[i - start], 10) is None);
                return None;
            },
            Some(dv) => {
                proof {
                    lemma_digits_value_step(d, i - start, 10);
                    assert(d[i - start] == sl@[i as int]);
                    assert forall|k: int| 0 <= k < i + 1 - start implies #[trigger] digit_value(
                        d.take(i + 1 - start)[k],
                        10,
                    ) is Some by {
                        if k < i - start {
                            assert(d.take(i + 1 - start)[k] == d.take(i - start)[k]);
                        }
                    }
                }
                let next: u128 = value * 10 + (dv as u128);
                if next > usize::MAX as u128 {
                    proof {
                        lemma_digits_value_monotone(d, (i + 1 - start) as int, 10);
                    }
                    return None;
                }
                value = next;
                i = i + 1;
            },
        }
    }
    assert(d.take(hi - start) =~= d);
    Some(value as usize)
}

// ---------------------------------------------------------------------------
// Ordering texts (`Ord` of `str`)
// ---------------------------------------------------------------------------

/// Whether the text `a` comes before `b`: at the first place where they
/// differ, `a` has the smaller character, or `a` is a proper prefix of `b`.
pub open spec fn text_lt(a: Seq<char>, b: Seq<char>) -> bool
    decreases a.len(),
{
    if a.len() == 0 {
        b.len() > 0
    } else if b.len() == 0 {
        false
    } else if a[0] != b[0] {
        a[0] < b[0]
    } else {
        text_lt(a.drop_first(), b.drop_first())
    }
}

/// No text comes before itself.
pub proof fn lemma_text_lt_irreflexive(a: Seq<char>)
    ensures
        !text_lt(a, a),
    decreases a.len(),
{
    if a.len() > 0 {
        lemma_text_lt_irreflexive(a.drop_first());
    }
}

/// Of two different texts, one comes before the other.
pub proof fn lemma_text_lt_total(a: Seq<char>, b: Seq<char>)
    ensures
        a != b ==> text_lt(a, b) || text_lt(b, a),
    decreases a.len(),
{
    if a.len() > 0 && b.len() > 0 && a[0] == b[0] {
        lemma_text_lt_total(a.drop_first(), b.drop_first());
        if a.drop_first() == b.drop_first() {
            assert(a =~= seq![a[0]] + a.drop_first());
            assert(b =~= seq![b[0]] + b.drop_first());
        }
    } else if a.len() == 0 && b.len() == 0 {
        assert(a =~= b);
    }
}

/// The order of texts is transitive.
pub proof fn lemma_text_lt_transitive(a: Seq<char>, b: Seq<char>, c: Seq<char>)
    requires
        text_lt(a, b),
        text_lt(b, c),
    ensures
        text_lt(a, c),
    decreases a.len(),
{
    if a.len() > 0 && b.len() > 0 && c.len() > 0 && a[0] == b[0] && b[0] == c[0] {
        lemma_text_lt_transitive(a.drop_first(), b.drop_first(), c.drop_first());
    }
}

/// Comparing two texts from the place `i`, when they agree before it.
proof fn lemma_text_lt_skip(a: Seq<char>, b: Seq<char>, i: int)
    requires
        0 <= i <= a.len(),
        i <= b.len(),
        a.take(i) == b.take(i),
    ensures
        text_lt(a, b) == text_lt(a.skip(i), b.skip(i)),
    decreases i,
{
    if i > 0 {
        assert(a[0] == a.take(i)[0]);
        assert(b[0] == b.take(i)[0]);
        assert(a.drop_first().take(i - 1) =~= a.take(i).drop_first());
        assert(b.drop_first().take(i - 1) =~= b.take(i).drop_first());
        lemma_text_lt_skip(a.drop_first(), b.drop_first(), i - 1);
        assert(a.drop_first().skip(i - 1) =~= a.skip(i));
        assert(b.drop_first().skip(i - 1) =~= b.skip(i));
    } else {
        assert(a.skip(0) =~= a);
        assert(b.skip(0) =~= b);
    }
}

/// Whether the text of `a` comes before that of `b` (`a < b` on strings).
pub fn text_less(a: &String, b: &String) -> (r: bool)
    ensures
        r == text_lt(a@, b@),
{
    let x = chars_of(a.as_str());
    let y = chars_of(b.as_str());
    let n = if x.len() < y.len() {
        x.len()
    } else {
        y.len()
    };
    let mut i: usize = 0;
    while i < n && x[i] == y[i]
        invariant
            i <= n,
            n <= x@.len(),
            n <= y@.len(),
            x@ == a@,
            y@ == b@,
            x@.take(i as int) == y@.take(i as int),
        decreases n - i,
    {
        assert(x@.take(i + 1) =~= x@.take(i as int).push(x@[i as int]));
        assert(y@.take(i + 1) =~= y@.take(i as int).push(y@[i as int]));
        i = i + 1;
    }
    proof {
        lemma_text_lt_skip(x@, y@, i as int);
    }
    if i < n {
        x[i] < y[i]
    } else {
        x.len() < y.len()
    }
}

/// The value of the digit `c` in the radix.
pub fn to_digit(c: char, radix: u32) -> (r: Option<u32>)
    requires
        2 <= radix <= 36,
    ensures
        r matches Some(d) ==> digit_value(c, radix as nat) == Some(d as nat),
        r is None ==> digit_value(c, radix as nat) is None,
{
    let u = c as u32;
    let d: u32 = if 0x30 <= u && u <= 0x39 {
        u - 0x30
    } else if 0x61 <= u && u <= 0x7A {
        u - 0x61 + 10
    } else if 0x41 <= u && u <= 0x5A {
        u - 0x41 + 10
    } else {
        99
    };
    if d < radix {
        Some(d)
    } else {
        None
    }
}

proof fn lemma_digits_value_step(s: Seq<char>, i: int, radix: nat)
    requires
        0 <= i < s.len(),
    ensures
        digits_value(s.take(i + 1), radix) == digits_value(s.take(i), radix) * radix + match digit_value(
            s[i],
            radix,
        ) {
            Some(d) => d,
            None => 0,
        },
{
    assert(s.take(i + 1).drop_last() =~= s.take(i));
}

/// Parses `s[lo..hi]` as an unsigned 32-bit number in the radix, as
/// `u32::from_str_radix` does.
pub fn parse_u32_range(s: &[char], lo: usize, hi: usize, radix: u32) -> (r: Option<u32>)
    requires
        lo <= hi <= s@.len(),
        2 <= radix <= 36,
    ensures
        r == parse_u32_radix(s@.subrange(lo as int, hi as int), radix as nat),
{
    let ghost sub = s@.subrange(lo as int, hi as int);
    if lo == hi {
        return None;
    }
    let start = if hi - lo > 1 && s[lo] == '+' {
        lo + 1
    } else {
        lo
    };
    let ghost d = s@.subrange(start as int, hi as int);
    assert(unsigned_digits(sub) =~= d);
    let mut value: u64 = 0;
    let mut i = start;
    while i < hi
        invariant
            lo <= start <= i <= hi <= s@.len(),
            2 <= radix <= 36,
            d == s@.subrange(start as int, hi as int),
            sub == s@.subrange(lo as int, hi as int),
            sub.len() > 0,
            unsigned_digits(sub) == d,
            all_digits(d.take(i - start), radix as nat),
            value == digits_value(d.take(i - start), radix as nat),
            value <= u32::MAX,
        decreases hi - i,
    {
        let dig = to_digit(s[i], radix);
        match dig {
            None => {
                assert(digit_value(d[i - start], radix as nat) is None);
                return None;
            },
            Some(dv) => {
                proof {
                    lemma_digits_value_step(d, i - start, radix as nat);
                    assert(d[i - start] == s@[i as int]);
                    assert forall|k: int| 0 <= k < i + 1 - start implies #[trigger] digit_value(
                        d.take(i + 1 - start)[k],
                        radix as nat,
                    ) is Some by {
                        if k < i - start {
                            assert(d.take(i + 1 - start)[k] == d.take(i - start)[k]);
                        }
                    }
                }
                assert(value * (radix as u64) <= 0xFFFF_FFFFu64 * 36) by (nonlinear_arith)
                    requires
                        value <= 0xFFFF_FFFFu64,
                        radix <= 36,
                ;
                let next: u64 = value * (radix as u64) + (dv as u64);
                if next > 0xFFFF_FFFF {
                    proof {
                        lemma_digits_value_monotone(d, (i + 1 - start) as int, radix as nat);
                    }
                    return None;
                }
                value = next;
                i = i + 1;
            },
        }
    }
    assert(d.take(hi - start) =~= d);
    Some(value as u32)
}

/// Taking more digits never lowers the value.
pub proof fn lemma_digits_value_monotone(d: Seq<char>, k: int, radix: nat)
    requires
        0 <= k <= d.len(),
        radix >= 1,
    ensures
        digits_value(d.take(k), radix) <= digits_value(d, radix),
    decreases d.len() - k,
{
    if k < d.len() {
        lemma_digits_value_monotone(d, k + 1, radix);
        lemma_digits_value_step(d, k, radix);
        let v = digits_value(d.take(k), radix);
        assert(v * radix >= v) by (nonlinear_arith)
            requires
                radix >= 1,
                v >= 0,
        ;
    } else {
        assert(d.take(k) =~= d);
    }
}

// ---------------------------------------------------------------------------
// Formatting numbers
// ---------------------------------------------------------------------------

/// The character of a hexadecimal digit.
pub open spec fn hex_char(d: nat, upper: bool) -> char {
    if d < 10 {
        ((0x30 + d) as u32) as char
    } else if upper {
        ((0x41 + d - 10) as u32) as char
    } else {
        ((0x61 + d - 10) as u32) as char
    }
}

/// The digits of `v` in the radix, most significant first, without leading
/// zeros (`"0"` for zero).
pub open spec fn radix_digits(v: nat, radix: nat, upper: bool) -> Seq<char>
    decreases v,
{
    if radix < 2 {
        seq![]
    } else if v < radix {
        seq![hex_char(v, upper)]
    } else {
        proof {
            assert(v / radix < v) by (nonlinear_arith)
                requires
                    radix >= 2,
                    v >= radix,
            ;
        }
        radix_digits(v / radix, radix, upper).push(hex_char(v % radix, upper))
    }
}

/// `s` padded on the left with `0` up to `width` characters.
pub open spec fn zero_pad(s: Seq<char>, width: nat) -> Seq<char> {
    if s.len() < width {
        Seq::new((width - s.len()) as nat, |i: int| '0') + s
    } else {
        s
    }
}

/// Decimal text of `v` (`format!("{}", v)`).
pub open spec fn dec_text(v: nat) -> Seq<char> {
    radix_digits(v, 10, false)
}

/// Hexadecimal text of `v`, zero-padded to `width` (`{:0width$X}` or
/// `{:0width$x}`).
pub open spec fn hex_text(v: nat, width: nat, upper: bool) -> Seq<char> {
    zero_pad(radix_digits(v, 16, upper), width)
}

/// The digits of `v` in the radix, as characters.
pub fn radix_digit_chars(v: u64, radix: u64, upper: bool) -> (r: Vec<char>)
    requires
        2 <= radix <= 16,
    ensures
        r@ == radix_digits(v as nat, radix as nat, upper),
    decreases v,
{
    let mut r = if v >= radix {
        assert(v / radix < v) by (nonlinear_arith)
            requires
                radix >= 2,
                v >= radix,
        ;
        radix_digit_chars(v / radix, radix, upper)
    } else {
        Vec::new()
    };
    let d = v % radix;
    let c: char = if d < 10 {
        ((0x30 + d) as u8) as char
    } else if upper {
        ((0x41 + d - 10) as u8) as char
    } else {
        ((0x61 + d - 10) as u8) as char
    };
    assert(c == hex_char(d as nat, upper));
    r.push(c);
    proof {
        if v < radix {
            assert(d == v) by (nonlinear_arith)
                requires
                    v < radix,
                    d == v % radix,
            ;
            assert(r@ =~= seq![c]);
        }
    }
    r
}

/// Appends the characters of `v` to `s`.
pub fn push_chars(s: &mut String, v: &[char])
    ensures
        final(s)@ == old(s)@ + v@,
{
    let ghost s0 = s@;
    let mut i: usize = 0;
    while i < v.len()
        invariant
            i <= v.len(),
            s@ == s0 + v@.take(i as int),
        decreases v.len() - i,
    {
        push_char(s, v[i]);
        assert(v@.take(i as int).push(v@[i as int]) =~= v@.take(i + 1));
        assert(s0 + v@.take(i as int).push(v@[i as int]) =~= (s0 + v@.take(i as int)).push(v@[i as int]));
        i = i + 1;
    }
    assert(v@.take(v.len() as int) =~= v@);
}

/// Appends `v` in decimal to `s`.
pub fn push_dec(s: &mut String, v: u64)
    ensures
        final(s)@ == old(s)@ + dec_text(v as nat),
{
    let d = radix_digit_chars(v, 10, false);
    push_chars(s, d.as_slice());
}

/// Appends `v` in hexadecimal, zero-padded to `width`, to `s`.
pub fn push_hex(s: &mut String, v: u64, width: usize, upper: bool)
    ensures
        final(s)@ == old(s)@ + hex_text(v as nat, width as nat, upper),
{
    let d = radix_digit_chars(v, 16, upper);
    let n = d.len();
    let ghost s0 = s@;
    let mut i = n;
    while i < width
        invariant
            n <= i,
            i <= width || i == n,
            s@ == s0 + Seq::new((i - n) as nat, |k: int| '0'),
        decreases width - i,
    {
        push_char(s, '0');
        assert(Seq::new((i - n) as nat, |k: int| '0').push('0') =~= Seq::new(
            (i + 1 - n) as nat,
            |k: int| '0',
        ));
        i = i + 1;
    }
    let ghost s1 = s@;
    push_chars(s, d.as_slice());
    proof {
        if n < width {
            assert(s@ =~= s0 + (Seq::new((width - d@.len()) as nat, |k: int| '0') + d@));
        } else {
            assert(Seq::new((i - n) as nat, |k: int| '0') =~= Seq::<char>::empty());
            assert(s@ =~= s0 + d@);
        }
    }
}

} // verus!
