//! Character-level text helpers: building strings, decimal rendering,
//! substring search, trimming and case folding.
use vstd::prelude::*;

verus! {

/// Appends one character.  Wraps `String::push`.
#[verifier::external_body]
pub(crate) fn push_char(s: &mut String, c: char)
    ensures
        final(s)@ == old(s)@.push(c),
{
    s.push(c);
}

/// Appends a string slice.
pub(crate) fn push_str(s: &mut String, t: &str)
    ensures
        final(s)@ == old(s)@ + t@,
{
    s.append(t);
}

/// String equality on two slices.  Wraps `<str as PartialEq>::eq`, which
/// compares the two texts character for character.
#[verifier::external_body]
pub(crate) fn str_eq(a: &str, b: &str) -> (r: bool)
    ensures
        r == (a@ == b@),
{
    a == b
}

/// The characters of a slice, in order.  Wraps `str::chars` collected.
#[verifier::external_body]
pub(crate) fn chars_of(s: &str) -> (v: Vec<char>)
    ensures
        v@ == s@,
{
    s.chars().collect()
}

/// Unicode lower-casing as `str::to_lowercase` performs it.
pub uninterp spec fn lowercase(s: Seq<char>) -> Seq<char>;

/// Lower-cases a text.  Wraps `str::to_lowercase`; the result is named by
/// `lowercase`, a function of the text alone.  Each character becomes its
/// lowercase mapping of one or more characters, so the result is empty
/// exactly when the text is.
#[verifier::external_body]
pub(crate) fn to_lowercase(s: &str) -> (r: String)
    ensures
        r@ == lowercase(s@),
        r@.len() == 0 <==> s@.len() == 0,
{
    s.to_lowercase()
}

/// Unicode `White_Space`, which `char::is_whitespace` decides: the
/// control characters TAB to CR, space, NEL, no-break space, ogham space
/// mark, the spaces U+2000 to U+200A, line and paragraph separators, narrow
/// no-break space, medium mathematical space and ideographic space.
pub open spec fn unicode_whitespace(c: char) -> bool {
    let n = c as u32;
    ||| 0x09 <= n <= 0x0D
    ||| n == 0x20
    ||| n == 0x85
    ||| n == 0xA0
    ||| n == 0x1680
    ||| 0x2000 <= n <= 0x200A
    ||| n == 0x2028
    ||| n == 0x2029
    ||| n == 0x202F
    ||| n == 0x205F
    ||| n == 0x3000
}

/// Whether a character is white space (`char::is_whitespace`).
pub(crate) fn is_whitespace(c: char) -> (r: bool)
    ensures
        r == unicode_whitespace(c),
{
    let n = c as u32;
    (0x09 <= n && n <= 0x0D) || n == 0x20 || n == 0x85 || n == 0xA0 || n == 0x1680
        || (0x2000 <= n && n <= 0x200A) || n == 0x2028 || n == 0x2029 || n == 0x202F || n == 0x205F
        || n == 0x3000
}

/// Builds a `String` from its characters.
pub fn string_from_chars(v: &[char]) -> (s: String)
    ensures
        s@ == v@,
{
    let mut s = String::new();
    let mut i: usize = 0;
    while i < v.len()
        invariant
            i <= v@.len(),
            s@ == v@.take(i as int),
        decreases v@.len() - i,
    {
        push_char(&mut s, v[i]);
        i = i + 1;
        assert(s@ =~= v@.take(i as int));
    }
    assert(v@.take(v@.len() as int) =~= v@);
    s
}

/// The text of one decimal digit.
pub open spec fn digit_char(d: nat) -> char {
    if d == 0 { '0' }
    else if d == 1 { '1' }
    else if d == 2 { '2' }
    else if d == 3 { '3' }
    else if d == 4 { '4' }
    else if d == 5 { '5' }
    else if d == 6 { '6' }
    else if d == 7 { '7' }
    else if d == 8 { '8' }
    else { '9' }
}

/// Decimal notation of a natural number, without sign or leading zeros.
pub open spec fn decimal(n: nat) -> Seq<char>
    decreases n,
{
    if n < 10 {
        seq![digit_char(n)]
    } else {
        decimal(n / 10).push(digit_char(n % 10))
    }
}

/// Decimal notation of an integer, with a leading `-` when negative.
pub open spec fn signed_decimal(n: int) -> Seq<char> {
    if n < 0 {
        seq!['-'] + decimal((-n) as nat)
    } else {
        decimal(n as nat)
    }
}

fn digit(d: u64) -> (c: char)
    requires
        d < 10,
    ensures
        c == digit_char(d as nat),
{
    if d == 0 { '0' }
    else if d == 1 { '1' }
    else if d == 2 { '2' }
    else if d == 3 { '3' }
    else if d == 4 { '4' }
    else if d == 5 { '5' }
    else if d == 6 { '6' }
    else if d == 7 { '7' }
    else if d == 8 { '8' }
    else { '9' }
}

/// Appends the decimal notation of `n`.
pub fn push_decimal(s: &mut String, n: u64)
    ensures
        final(s)@ == old(s)@ + decimal(n as nat),
    decreases n,
{
    if n >= 10 {
        push_decimal(s, n / 10);
    }
    push_char(s, digit(n % 10));
    assert(final(s)@ =~= old(s)@ + decimal(n as nat)) by {
        if n >= 10 {
            assert(decimal(n as nat) == decimal((n / 10) as nat).push(digit_char((n % 10) as nat)));
        }
    }
}

/// Appends the decimal notation of a signed `n`.
pub fn push_signed_decimal(s: &mut String, n: i64)
    ensures
        final(s)@ == old(s)@ + signed_decimal(n as int),
{
    if n < 0 {
        push_char(s, '-');
        let m: u64 = if n == i64::MIN { 9223372036854775808u64 } else { (-n) as u64 };
        push_decimal(s, m);
        assert(final(s)@ =~= old(s)@ + signed_decimal(n as int));
    } else {
        push_decimal(s, n as u64);
    }
}

/// Decimal notation of `n` as a new string (`u64::to_string`).
pub fn u64_to_string(n: u64) -> (s: String)
    ensures
        s@ == decimal(n as nat),
{
    let mut s = String::new();
    push_decimal(&mut s, n);
    assert(s@ =~= decimal(n as nat));
    s
}

/// Decimal notation of a signed `n` as a new string (`i64::to_string`).
pub fn i64_to_string(n: i64) -> (s: String)
    ensures
        s@ == signed_decimal(n as int),
{
    let mut s = String::new();
    push_signed_decimal(&mut s, n);
    assert(s@ =~= signed_decimal(n as int));
    s
}

/// `true` when `needle` occurs as a contiguous part of `hay` (the empty text
/// occurs in every text).
pub open spec fn has_infix(hay: Seq<char>, needle: Seq<char>) -> bool {
    exists|i: int|
        0 <= i && i + needle.len() <= hay.len() && #[trigger] hay.subrange(i, i + needle.len())
            == needle
}

fn matches_at(hay: &Vec<char>, needle: &Vec<char>, i: usize) -> (r: bool)
    requires
        i + needle@.len() <= hay@.len(),
    ensures
        r == (hay@.subrange(i as int, i + needle@.len()) == needle@),
{
    let hay_len = hay.len();
    let mut j: usize = 0;
    while j < needle.len()
        invariant
            i + needle@.len() <= hay@.len(),
            hay@.len() == hay_len,
            j <= needle@.len(),
            forall|k: int| 0 <= k < j ==> hay@[i + k] == needle@[k],
        decreases needle@.len() - j,
    {
        if hay[i + j] != needle[j] {
            assert(hay@.subrange(i as int, i + needle@.len())[j as int] != needle@[j as int]);
            return false;
        }
        j = j + 1;
    }
    assert(hay@.subrange(i as int, i + needle@.len()) =~= needle@);
    true
}

/// Substring search on character vectors (`str::contains` with a string pattern).
pub fn contains_chars(hay: &Vec<char>, needle: &Vec<char>) -> (r: bool)
    ensures
        r == has_infix(hay@, needle@),
{
    if needle.len() > hay.len() {
        return false;
    }
    let last = hay.len() - needle.len();
    let mut i: usize = 0;
    loop
        invariant
            last + needle@.len() == hay@.len(),
            i <= last,
            forall|k: int|
                0 <= k < i ==> #[trigger] hay@.subrange(k, k + needle@.len()) != needle@,
        decreases last - i,
    {
        if matches_at(hay, needle, i) {
            return true;
        }
        if i == last {
            return false;
        }
        i = i + 1;
    }
}

/// Substring search on texts.
pub fn contains_str(hay: &str, needle: &str) -> (r: bool)
    ensures
        r == has_infix(hay@, needle@),
{
    let h = chars_of(hay);
    let n = chars_of(needle);
    contains_chars(&h, &n)
}

/// The text without its leading white space.
pub open spec fn trim_start_seq(s: Seq<char>) -> Seq<char>
    decreases s.len(),
{
    if s.len() > 0 && unicode_whitespace(s[0]) {
        trim_start_seq(s.drop_first())
    } else {
        s
    }
}

/// The text without its trailing white space.
pub open spec fn trim_end_seq(s: Seq<char>) -> Seq<char>
    decreases s.len(),
{
    if s.len() > 0 && unicode_whitespace(s.last()) {
        trim_end_seq(s.drop_last())
    } else {
        s
    }
}

/// The text without leading and trailing white space (`str::trim`).
pub open spec fn trim_seq(s: Seq<char>) -> Seq<char> {
    trim_end_seq(trim_start_seq(s))
}

/// Removes leading and trailing white space (`str::trim`).
pub fn trim_str(s: &str) -> (r: String)
    ensures
        r@ == trim_seq(s@),
{
    let v = chars_of(s);
    let mut start: usize = 0;
    assert(v@.skip(0) =~= v@);
    while start < v.len() && is_whitespace(v[start])
        invariant
            start <= v@.len(),
            trim_start_seq(v@) == trim_start_seq(v@.skip(start as int)),
        decreases v@.len() - start,
    {
        assert(v@.skip(start as int).drop_first() =~= v@.skip(start + 1));
        start = start + 1;
    }
    assert(trim_start_seq(v@.skip(start as int)) == v@.skip(start as int));
    let mut end: usize = v.len();
    while end > start && is_whitespace(v[end - 1])
        invariant
            start <= end <= v@.len(),
            trim_seq(v@) == trim_end_seq(v@.subrange(start as int, end as int)),
        decreases end,
    {
        assert(v@.subrange(start as int, end as int).drop_last() =~= v@.subrange(
            start as int,
            end - 1,
        ));
        end = end - 1;
    }
    assert(v@.skip(start as int) =~= v@.subrange(start as int, v@.len() as int));
    let mut out: Vec<char> = Vec::new();
    let mut i: usize = start;
    while i < end
        invariant
            start <= i <= end <= v@.len(),
            out@ == v@.subrange(start as int, i as int),
        decreases end - i,
    {
        out.push(v[i]);
        i = i + 1;
        assert(out@ =~= v@.subrange(start as int, i as int));
    }
    string_from_chars(out.as_slice())
}

} // verus!
