//! UTF-16 as the Win32 API speaks it: NUL-terminated wide strings going out,
//! and lossy decoding of wide strings coming back.
use vstd::prelude::*;

verus! {

broadcast use {vstd::utf8::char_is_scalar, vstd::utf8::char_u32_cast};

/// The Unicode replacement character, U+FFFD.
pub open spec fn replacement_char() -> char {
    '\u{FFFD}'
}

/// `u` is a leading (high) surrogate.
pub open spec fn is_high_surrogate(u: u16) -> bool {
    0xD800 <= u <= 0xDBFF
}

/// `u` is a trailing (low) surrogate.
pub open spec fn is_low_surrogate(u: u16) -> bool {
    0xDC00 <= u <= 0xDFFF
}

/// The scalar value that a surrogate pair stands for.
pub open spec fn pair_value(hi: u16, lo: u16) -> int {
    0x10000 + (hi - 0xD800) * 0x400 + (lo - 0xDC00)
}

/// The UTF-16 code units of one character: itself below U+10000, else a surrogate pair.
pub open spec fn utf16_units(c: char) -> Seq<u16> {
    let v = c as u32;
    if v < 0x10000 {
        seq![v as u16]
    } else {
        seq![(0xD800 + (v - 0x10000) / 0x400) as u16, (0xDC00 + (v - 0x10000) % 0x400) as u16]
    }
}

/// The UTF-16 encoding of a character sequence (`str::encode_utf16`).
pub open spec fn utf16_encode(s: Seq<char>) -> Seq<u16>
    decreases s.len(),
{
    if s.len() == 0 {
        seq![]
    } else {
        utf16_units(s[0]) + utf16_encode(s.drop_first())
    }
}

/// Lossy UTF-16 decoding (`String::from_utf16_lossy`): a surrogate pair becomes the
/// character it stands for, any other unpaired surrogate becomes U+FFFD, and every
/// other unit is the character of that value.
pub open spec fn utf16_decode(u: Seq<u16>) -> Seq<char>
    decreases u.len(),
{
    if u.len() == 0 {
        seq![]
    } else if !is_high_surrogate(u[0]) && !is_low_surrogate(u[0]) {
        seq![(u[0] as u32) as char] + utf16_decode(u.drop_first())
    } else if is_high_surrogate(u[0]) && u.len() >= 2 && is_low_surrogate(u[1]) {
        seq![(pair_value(u[0], u[1]) as u32) as char] + utf16_decode(u.subrange(2, u.len() as int))
    } else {
        seq![replacement_char()] + utf16_decode(u.drop_first())
    }
}

/// Converts a scalar value to a character with std `char::from_u32`: a value that is
/// a Unicode scalar value (below U+D800, or from U+E000 to U+10FFFF) gives that
/// character, any other value gives `None`.
#[verifier::external_body]
pub(crate) fn char_from_u32(v: u32) -> (r: Option<char>)
    ensures
        (v < 0xD800 || (0xE000 <= v && v <= 0x10FFFF)) <==> r is Some,
        r matches Some(c) ==> c as u32 == v,
{
    char::from_u32(v)
}

proof fn lemma_encode_append(a: Seq<char>, b: Seq<char>)
    ensures
        utf16_encode(a + b) == utf16_encode(a) + utf16_encode(b),
    decreases a.len(),
{
    if a.len() == 0 {
        assert(a + b =~= b);
        assert(utf16_encode(a) + utf16_encode(b) =~= utf16_encode(b));
    } else {
        assert((a + b).drop_first() =~= a.drop_first() + b);
        assert((a + b)[0] == a[0]);
        lemma_encode_append(a.drop_first(), b);
        assert(utf16_encode(a + b) =~= utf16_units(a[0]) + (utf16_encode(a.drop_first())
            + utf16_encode(b)));
    }
}

proof fn lemma_encode_push(a: Seq<char>, c: char)
    ensures
        utf16_encode(a.push(c)) == utf16_encode(a) + utf16_units(c),
{
    lemma_encode_append(a, seq![c]);
    assert(a + seq![c] =~= a.push(c));
    assert(seq![c].drop_first() =~= Seq::<char>::empty());
    assert(utf16_encode(Seq::<char>::empty()) =~= Seq::<u16>::empty());
    assert(utf16_encode(seq![c]) =~= utf16_units(c));
}

/// The UTF-16 units of `s` followed by one NUL unit: the wide-string form that the
/// Win32 API takes.
pub fn to_wide_nul(s: &str) -> (w: Vec<u16>)
    ensures
        w@ == utf16_encode(s@).push(0u16),
{
    let mut out: Vec<u16> = Vec::new();
    for c in it: s.chars()
        invariant
            it.seq() == s@,
            out@ == utf16_encode(s@.take(it.index() as int)),
    {
        proof {
            assert(s@.take(it.index() + 1) == s@.take(it.index() as int).push(c));
            lemma_encode_push(s@.take(it.index() as int), c);
        }
        let v = c as u32;
        if v < 0x10000 {
            out.push(v as u16);
        } else {
            let w = v - 0x10000;
            out.push((0xD800 + w / 0x400) as u16);
            out.push((0xDC00 + w % 0x400) as u16);
        }
        proof {
            assert(out@ =~= utf16_encode(s@.take(it.index() as int)) + utf16_units(c));
        }
    }
    proof {
        assert(s@.take(s@.len() as int) == s@);
    }
    out.push(0);
    out
}

/// Decodes UTF-16 units into a string the way `String::from_utf16_lossy` does.
pub fn decode_utf16_lossy(units: &[u16]) -> (s: String)
    ensures
        s@ == utf16_decode(units@),
{
    let n = units.len();
    let mut out = String::new();
    let mut i: usize = 0;
    proof {
        assert(units@.subrange(0, n as int) =~= units@);
    }
    while i < n
        invariant
            n == units@.len(),
            i <= n,
            utf16_decode(units@) == out@ + utf16_decode(units@.subrange(i as int, n as int)),
        decreases n - i,
    {
        let ghost rest = units@.subrange(i as int, n as int);
        let u = units[i];
        assert(rest[0] == u);
        if u < 0xD800 || u > 0xDFFF {
            let r = char_from_u32(u as u32);
            let c = r.unwrap();
            proof {
                assert(c as u32 == u as u32);
                vstd::utf8::char_u32_cast(c, u as u32);
                assert(rest.drop_first() =~= units@.subrange(i + 1, n as int));
                assert(c == ((u as u32) as char));
            }
            crate::text::push_char(&mut out, c);
            i = i + 1;
        } else if u <= 0xDBFF && i + 1 < n && units[i + 1] >= 0xDC00 && units[i + 1] <= 0xDFFF {
            let lo = units[i + 1];
            let v: u32 = 0x10000 + ((u - 0xD800) as u32) * 0x400 + ((lo - 0xDC00) as u32);
            let r = char_from_u32(v);
            let c = r.unwrap();
            proof {
                assert(c as u32 == v);
                vstd::utf8::char_u32_cast(c, v);
                assert(v == pair_value(u, lo));
                assert(rest[1] == lo);
                assert(rest.subrange(2, rest.len() as int) =~= units@.subrange(i + 2, n as int));
                assert(c == ((pair_value(u, lo) as u32) as char));
            }
            crate::text::push_char(&mut out, c);
            i = i + 2;
        } else {
            proof {
                assert(rest.drop_first() =~= units@.subrange(i + 1, n as int));
            }
            crate::text::push_char(&mut out, '\u{FFFD}');
            i = i + 1;
        }
    }
    proof {
        assert(units@.subrange(n as int, n as int) =~= Seq::<u16>::empty());
        assert(out@ + Seq::<char>::empty() =~= out@);
    }
    out
}

proof fn lemma_decode_units_then(c: char, rest: Seq<u16>)
    ensures
        utf16_decode(utf16_units(c) + rest) == seq![c] + utf16_decode(rest),
{
    let u = utf16_units(c) + rest;
    let v = c as u32;
    if v < 0x10000 {
        assert(u[0] == v as u16);
        assert(u.drop_first() =~= rest);
        assert(((u[0] as u32) as char) == c);
    } else {
        let w = v - 0x10000;
        assert(0 <= w <= 0xFFFFF);
        assert(w == 0x400 * (w / 0x400) + w % 0x400);
        assert(u[0] == (0xD800 + w / 0x400) as u16);
        assert(u[1] == (0xDC00 + w % 0x400) as u16);
        assert(u.subrange(2, u.len() as int) =~= rest);
        assert(pair_value(u[0], u[1]) == v);
        assert(((pair_value(u[0], u[1]) as u32) as char) == c);
    }
}

/// Decoding what was encoded gives back the same text: for every character sequence
/// `s`, lossy UTF-16 decoding of the UTF-16 encoding of `s` is `s`.
pub proof fn law_utf16_roundtrip(s: Seq<char>)
    ensures
        utf16_decode(utf16_encode(s)) == s,
    decreases s.len(),
{
    if s.len() == 0 {
        assert(utf16_encode(s) =~= Seq::<u16>::empty());
    } else {
        law_utf16_roundtrip(s.drop_first());
        lemma_decode_units_then(s[0], utf16_encode(s.drop_first()));
        assert(seq![s[0]] + s.drop_first() =~= s);
    }
}

} // verus!
