//! Character-level helpers shared by the rest of the library: building
//! strings, decimal and hexadecimal rendering, suffix tests and trimming.
use vstd::prelude::*;
use vstd::string::*;

verus! {

/// Whether `c` carries the Unicode `White_Space` property (`char::is_whitespace`): the
/// control characters U+0009 to U+000D, the space, U+0085, the no-break space U+00A0,
/// U+1680, U+2000 to U+200A, the line and paragraph separators U+2028 and U+2029, U+202F,
/// U+205F and the ideographic space U+3000.
pub open spec fn is_white_space(c: char) -> bool {
    let v = c as u32;
    ||| 0x9 <= v <= 0xD
    ||| v == 0x20
    ||| v == 0x85
    ||| v == 0xA0
    ||| v == 0x1680
    ||| 0x2000 <= v <= 0x200A
    ||| v == 0x2028
    ||| v == 0x2029
    ||| v == 0x202F
    ||| v == 0x205F
    ||| v == 0x3000
}

/// The full Unicode lowercase mapping of `s`, as `str::to_lowercase` computes it.
pub uninterp spec fn lowercase_of(s: Seq<char>) -> Seq<char>;

/// Whether `c` is alphabetic or numeric in the Unicode sense, as `char::is_alphanumeric` reports it.
pub uninterp spec fn is_alphanumeric_char(c: char) -> bool;

/// Appends one character to a string (std `String::push`): the new contents are the
/// old contents followed by `c`.
#[verifier::external_body]
pub(crate) fn push_char(s: &mut String, c: char)
    ensures
        final(s)@ == old(s)@.push(c),
{
    s.push(c);
}

/// Whether `c` is white space in the Unicode sense (see `is_white_space`).
pub fn char_is_whitespace(c: char) -> (b: bool)
    ensures
        b == is_white_space(c),
{
    let v = c as u32;
    (0x9 <= v && v <= 0xD) || v == 0x20 || v == 0x85 || v == 0xA0 || v == 0x1680 || (0x2000 <= v
        && v <= 0x200A) || v == 0x2028 || v == 0x2029 || v == 0x202F || v == 0x205F || v == 0x3000
}

/// Tests a character with std `char::is_alphanumeric`; the result is `is_alphanumeric_char(c)`.
#[verifier::external_body]
pub(crate) fn char_is_alphanumeric(c: char) -> (b: bool)
    ensures
        b == is_alphanumeric_char(c),
{
    c.is_alphanumeric()
}

/// Lowercases a string slice with std `str::to_lowercase`; the result is `lowercase_of(s@)`.
#[verifier::external_body]
pub(crate) fn str_to_lowercase(s: &str) -> (r: String)
    ensures
        r@ == lowercase_of(s@),
{
    s.to_lowercase()
}

/// The characters of a string slice, in order.
pub fn chars_of(s: &str) -> (v: Vec<char>)
    ensures
        v@ == s@,
{
    let mut out: Vec<char> = Vec::new();
    for c in it: s.chars()
        invariant
            it.seq() == s@,
            out@ == s@.take(it.index() as int),
    {
        proof {
            assert(s@.take(it.index() + 1) == s@.take(it.index() as int).push(c));
        }
        out.push(c);
    }
    proof {
        assert(s@.take(s@.len() as int) == s@);
    }
    out
}

/// Appends the characters of `cs[lo..hi]` to `out`.
pub(crate) fn push_chars(out: &mut String, cs: &Vec<char>, lo: usize, hi: usize)
    requires
        lo <= hi <= cs@.len(),
    ensures
        final(out)@ == old(out)@ + cs@.subrange(lo as int, hi as int),
{
    let mut i = lo;
    while i < hi
        invariant
            lo <= i <= hi <= cs@.len(),
            out@ == old(out)@ + cs@.subrange(lo as int, i as int),
        decreases hi - i,
    {
        proof {
            assert(cs@.subrange(lo as int, i + 1) == cs@.subrange(lo as int, i as int).push(
                cs@[i as int],
            ));
        }
        push_char(out, cs[i]);
        i = i + 1;
    }
}

/// A string holding the characters of `cs[lo..hi]`.
pub(crate) fn string_from_range(cs: &Vec<char>, lo: usize, hi: usize) -> (s: String)
    requires
        lo <= hi <= cs@.len(),
    ensures
        s@ == cs@.subrange(lo as int, hi as int),
{
    let mut s = String::new();
    push_chars(&mut s, cs, lo, hi);
    s
}

/// A string holding exactly the characters of `cs`.
pub(crate) fn string_from_chars(cs: &Vec<char>) -> (s: String)
    ensures
        s@ == cs@,
{
    proof {
        assert(cs@.subrange(0, cs@.len() as int) == cs@);
    }
    string_from_range(cs, 0, cs.len())
}

/// The concatenation of two string slices.
pub fn concat2(a: &str, b: &str) -> (r: String)
    ensures
        r@ == a@ + b@,
{
    let mut r = String::from_str(a);
    r.append(b);
    r
}

/// Whether two string slices hold the same characters.
pub fn same_text(a: &str, b: &str) -> (r: bool)
    ensures
        r == (a@ == b@),
{
    let x = chars_of(a);
    let y = chars_of(b);
    if x.len() != y.len() {
        return false;
    }
    let mut i: usize = 0;
    while i < x.len()
        invariant
            x@ == a@,
            y@ == b@,
            x@.len() == y@.len(),
            i <= x@.len(),
            forall|j: int| 0 <= j < i ==> x@[j] == y@[j],
        decreases x.len() - i,
    {
        if x[i] != y[i] {
            return false;
        }
        i = i + 1;
    }
    proof {
        assert(x@ =~= y@);
    }
    true
}

/// `s` ends with `suffix`.
pub open spec fn has_suffix(s: Seq<char>, suffix: Seq<char>) -> bool {
    suffix.len() <= s.len() && s.subrange(s.len() - suffix.len(), s.len() as int) == suffix
}

/// Whether the characters `s` end with the characters of `suffix`.
pub fn chars_end_with(s: &Vec<char>, suffix: &str) -> (r: bool)
    ensures
        r == has_suffix(s@, suffix@),
{
    let t = chars_of(suffix);
    if t.len() > s.len() {
        return false;
    }
    let off = s.len() - t.len();
    let mut i: usize = 0;
    while i < t.len()
        invariant
            t@ == suffix@,
            off + t@.len() == s@.len(),
            off as int + t.len() == s.len(),
            i <= t@.len(),
            forall|j: int| 0 <= j < i ==> s@[off + j] == t@[j],
        decreases t.len() - i,
    {
        if s[off + i] != t[i] {
            proof {
                assert(s@.subrange(off as int, s@.len() as int)[i as int] != t@[i as int]);
            }
            return false;
        }
        i = i + 1;
    }
    proof {
        assert(s@.subrange(off as int, s@.len() as int) =~= t@);
    }
    true
}

/// Whether the text of `s`, lowercased with the full Unicode mapping, ends with `suffix`.
pub fn lowercase_ends_with(s: &str, suffix: &str) -> (r: bool)
    ensures
        r == has_suffix(lowercase_of(s@), suffix@),
{
    let lower = str_to_lowercase(s);
    let cs = chars_of(lower.as_str());
    chars_end_with(&cs, suffix)
}

// ---------------------------------------------------------------------------
// Decimal and hexadecimal rendering
// ---------------------------------------------------------------------------
/// The decimal digit character for `d` (taken below ten).
pub open spec fn decimal_digit(d: nat) -> char {
    seq!['0', '1', '2', '3', '4', '5', '6', '7', '8', '9'][d as int]
}

/// The decimal rendering of `n`, most significant digit first, with no leading zeros.
pub open spec fn decimal(n: nat) -> Seq<char>
    decreases n,
{
    if n < 10 {
        seq![decimal_digit(n)]
    } else {
        decimal(n / 10).push(decimal_digit(n % 10))
    }
}

fn digit_char(d: u8) -> (c: char)
    requires
        d < 10,
    ensures
        c == decimal_digit(d as nat),
{
    if d == 0 {
        '0'
    } else if d == 1 {
        '1'
    } else if d == 2 {
        '2'
    } else if d == 3 {
        '3'
    } else if d == 4 {
        '4'
    } else if d == 5 {
        '5'
    } else if d == 6 {
        '6'
    } else if d == 7 {
        '7'
    } else if d == 8 {
        '8'
    } else {
        '9'
    }
}

/// Appends the decimal rendering of `n` to `out`.
pub fn push_decimal(out: &mut String, n: u128)
    ensures
        final(out)@ == old(out)@ + decimal(n as nat),
    decreases n,
{
    if n >= 10 {
        push_decimal(out, n / 10);
    }
    let d = (n % 10) as u8;
    push_char(out, digit_char(d));
    proof {
        if n >= 10 {
            assert(decimal(n as nat) == decimal((n / 10) as nat).push(decimal_digit((n % 10) as nat)));
        }
    }
}

/// The lowercase hexadecimal digit character for `d` (taken below sixteen).
pub open spec fn hex_digit(d: nat) -> char {
    seq!['0', '1', '2', '3', '4', '5', '6', '7', '8', '9', 'a', 'b', 'c', 'd', 'e', 'f'][d as int]
}

/// `v` as exactly four lowercase hexadecimal digits, zero-padded (`{:04x}`).
pub open spec fn hex4(v: u16) -> Seq<char> {
    seq![
        hex_digit((v / 4096) as nat),
        hex_digit(((v / 256) % 16) as nat),
        hex_digit(((v / 16) % 16) as nat),
        hex_digit((v % 16) as nat),
    ]
}

fn hex_char(d: u16) -> (c: char)
    requires
        d < 16,
    ensures
        c == hex_digit(d as nat),
{
    if d < 10 {
        digit_char(d as u8)
    } else if d == 10 {
        'a'
    } else if d == 11 {
        'b'
    } else if d == 12 {
        'c'
    } else if d == 13 {
        'd'
    } else if d == 14 {
        'e'
    } else {
        'f'
    }
}

/// Appends `v` as four lowercase hexadecimal digits to `out`.
pub fn push_hex4(out: &mut String, v: u16)
    ensures
        final(out)@ == old(out)@ + hex4(v),
{
    push_char(out, hex_char(v / 4096));
    push_char(out, hex_char((v / 256) % 16));
    push_char(out, hex_char((v / 16) % 16));
    push_char(out, hex_char(v % 16));
    proof {
        assert(final(out)@ =~= old(out)@ + hex4(v));
    }
}

// ---------------------------------------------------------------------------
// Trimming
// ---------------------------------------------------------------------------
/// `s` without its trailing characters equal to `c`.
pub open spec fn trim_end_char(s: Seq<char>, c: char) -> Seq<char>
    decreases s.len(),
{
    if s.len() > 0 && s.last() == c {
        trim_end_char(s.drop_last(), c)
    } else {
        s
    }
}

/// `s` without its leading whitespace.
pub open spec fn trim_start_ws(s: Seq<char>) -> Seq<char>
    decreases s.len(),
{
    if s.len() > 0 && is_white_space(s[0]) {
        trim_start_ws(s.drop_first())
    } else {
        s
    }
}

/// `s` without its trailing whitespace.
pub open spec fn trim_end_ws(s: Seq<char>) -> Seq<char>
    decreases s.len(),
{
    if s.len() > 0 && is_white_space(s.last()) {
        trim_end_ws(s.drop_last())
    } else {
        s
    }
}

/// `s` without its leading and trailing whitespace (`str::trim`).
pub open spec fn trim_ws(s: Seq<char>) -> Seq<char> {
    trim_end_ws(trim_start_ws(s))
}

proof fn lemma_trim_end_char_at(s: Seq<char>, c: char, hi: int)
    requires
        0 <= hi <= s.len(),
        forall|i: int| hi <= i < s.len() ==> s[i] == c,
        hi == 0 || s[hi - 1] != c,
    ensures
        trim_end_char(s, c) == s.subrange(0, hi),
    decreases s.len(),
{
    if s.len() > 0 && s.last() == c {
        lemma_trim_end_char_at(s.drop_last(), c, hi);
        assert(s.drop_last().subrange(0, hi) =~= s.subrange(0, hi));
    } else {
        assert(s.subrange(0, hi) =~= s);
    }
}

proof fn lemma_trim_end_ws_at(s: Seq<char>, hi: int)
    requires
        0 <= hi <= s.len(),
        forall|i: int| hi <= i < s.len() ==> is_white_space(#[trigger] s[i]),
        hi == 0 || !is_white_space(s[hi - 1]),
    ensures
        trim_end_ws(s) == s.subrange(0, hi),
    decreases s.len(),
{
    if s.len() > 0 && is_white_space(s.last()) {
        assert forall|i: int| hi <= i < s.drop_last().len() implies is_white_space(
            #[trigger] s.drop_last()[i],
        ) by {
            assert(s.drop_last()[i] == s[i]);
        }
        lemma_trim_end_ws_at(s.drop_last(), hi);
        assert(s.drop_last().subrange(0, hi) =~= s.subrange(0, hi));
    } else {
        assert(s.subrange(0, hi) =~= s);
    }
}

proof fn lemma_trim_start_ws_at(s: Seq<char>, lo: int)
    requires
        0 <= lo <= s.len(),
        forall|i: int| 0 <= i < lo ==> is_white_space(#[trigger] s[i]),
        lo == s.len() || !is_white_space(s[lo]),
    ensures
        trim_start_ws(s) == s.subrange(lo, s.len() as int),
    decreases s.len(),
{
    if s.len() > 0 && is_white_space(s[0]) {
        assert(lo > 0);
        assert forall|i: int| 0 <= i < lo - 1 implies is_white_space(
            #[trigger] s.drop_first()[i],
        ) by {
            assert(s.drop_first()[i] == s[i + 1]);
        }
        lemma_trim_start_ws_at(s.drop_first(), lo - 1);
        assert(s.drop_first().subrange(lo - 1, s.drop_first().len() as int) =~= s.subrange(
            lo,
            s.len() as int,
        ));
    } else {
        assert(lo == 0);
        assert(s.subrange(0, s.len() as int) =~= s);
    }
}

/// `cs` without its trailing NUL characters (`str::trim_end_matches('\0')`).
pub fn trim_end_nul(cs: &Vec<char>) -> (r: Vec<char>)
    ensures
        r@ == trim_end_char(cs@, '\0'),
{
    let mut hi = cs.len();
    while hi > 0 && cs[hi - 1] == '\0'
        invariant
            hi <= cs@.len(),
            forall|i: int| hi <= i < cs@.len() ==> cs@[i] == '\0',
        decreases hi,
    {
        hi = hi - 1;
    }
    proof {
        lemma_trim_end_char_at(cs@, '\0', hi as int);
    }
    let mut r: Vec<char> = Vec::new();
    let mut i: usize = 0;
    while i < hi
        invariant
            hi <= cs@.len(),
            i <= hi,
            r@ == cs@.subrange(0, i as int),
        decreases hi - i,
    {
        r.push(cs[i]);
        proof {
            assert(cs@.subrange(0, i + 1) =~= cs@.subrange(0, i as int).push(cs@[i as int]));
        }
        i = i + 1;
    }
    r
}

/// The bounds `[lo, hi)` of `cs` once leading and trailing whitespace is cut off.
fn trim_bounds(cs: &Vec<char>) -> (b: (usize, usize))
    ensures
        b.0 <= b.1 <= cs@.len(),
        trim_ws(cs@) == cs@.subrange(b.0 as int, b.1 as int),
{
    let n = cs.len();
    let mut lo: usize = 0;
    while lo < n && char_is_whitespace(cs[lo])
        invariant
            n == cs@.len(),
            lo <= n,
            forall|i: int| 0 <= i < lo ==> is_white_space(#[trigger] cs@[i]),
        decreases n - lo,
    {
        lo = lo + 1;
    }
    proof {
        lemma_trim_start_ws_at(cs@, lo as int);
    }
    let ghost rest = cs@.subrange(lo as int, n as int);
    let mut hi: usize = n;
    while hi > lo && char_is_whitespace(cs[hi - 1])
        invariant
            n == cs@.len(),
            lo <= hi <= n,
            forall|i: int| hi <= i < n ==> is_white_space(#[trigger] cs@[i]),
        decreases hi,
    {
        hi = hi - 1;
    }
    proof {
        assert forall|i: int| hi - lo <= i < rest.len() implies is_white_space(
            #[trigger] rest[i],
        ) by {
            assert(rest[i] == cs@[lo + i]);
        }
        if hi > lo {
            assert(rest[hi - lo - 1] == cs@[hi - 1]);
        }
        lemma_trim_end_ws_at(rest, hi - lo);
        assert(rest.subrange(0, hi - lo) =~= cs@.subrange(lo as int, hi as int));
    }
    (lo, hi)
}

/// `cs` without its leading and trailing whitespace, as `str::trim` cuts it.
pub fn trim_whitespace(cs: &Vec<char>) -> (r: Vec<char>)
    ensures
        r@ == trim_ws(cs@),
{
    let (lo, hi) = trim_bounds(cs);
    let mut r: Vec<char> = Vec::new();
    let mut i: usize = lo;
    while i < hi
        invariant
            lo <= i <= hi <= cs@.len(),
            r@ == cs@.subrange(lo as int, i as int),
        decreases hi - i,
    {
        r.push(cs[i]);
        proof {
            assert(cs@.subrange(lo as int, i + 1) =~= cs@.subrange(lo as int, i as int).push(
                cs@[i as int],
            ));
        }
        i = i + 1;
    }
    r
}

proof fn lemma_trim_start_ws_shape(s: Seq<char>)
    ensures
        trim_start_ws(s).len() > 0 ==> !is_white_space(trim_start_ws(s)[0]),
        trim_start_ws(trim_start_ws(s)) == trim_start_ws(s),
    decreases s.len(),
{
    if s.len() > 0 && is_white_space(s[0]) {
        lemma_trim_start_ws_shape(s.drop_first());
    }
}

proof fn lemma_trim_end_ws_shape(s: Seq<char>)
    ensures
        trim_end_ws(s).len() > 0 ==> !is_white_space(trim_end_ws(s).last()),
        trim_end_ws(s).len() <= s.len(),
        trim_end_ws(s) == s.subrange(0, trim_end_ws(s).len() as int),
    decreases s.len(),
{
    if s.len() > 0 && is_white_space(s.last()) {
        lemma_trim_end_ws_shape(s.drop_last());
        let t = trim_end_ws(s.drop_last());
        assert(s.drop_last().subrange(0, t.len() as int) =~= s.subrange(0, t.len() as int));
    } else {
        assert(s.subrange(0, s.len() as int) =~= s);
    }
}

/// Trimming is idempotent: text that `str::trim` already trimmed comes back unchanged.
pub proof fn law_trim_idempotent(s: Seq<char>)
    ensures
        trim_ws(trim_ws(s)) == trim_ws(s),
{
    let a = trim_start_ws(s);
    let t = trim_end_ws(a);
    lemma_trim_start_ws_shape(s);
    lemma_trim_end_ws_shape(a);
    // `t` is a prefix of `a`, so it begins where `a` begins: with a non-space.
    if t.len() > 0 {
        assert(t[0] == a[0]);
        assert(!is_white_space(t[0]));
    }
    assert(trim_start_ws(t) == t);
    lemma_trim_end_ws_shape(t);
    if t.len() > 0 {
        assert(!is_white_space(t.last()));
    }
    assert(trim_end_ws(t) == t);
}

} // verus!
