//! Percent-encoding of URL path segments.
use vstd::prelude::*;
use vstd::utf8::{char_is_scalar, char_u32_cast, encode_scalar, encode_utf8};
use crate::text::{push_char, push_str, trim, trim_spec};

verus! {

/// RFC 3986 unreserved bytes: `A-Z a-z 0-9 - _ . ~`.
pub open spec fn is_unreserved(b: u8) -> bool {
    (0x41 <= b && b <= 0x5a) || (0x61 <= b && b <= 0x7a) || (0x30 <= b && b <= 0x39) || b == 0x2d
        || b == 0x5f || b == 0x2e || b == 0x7e
}

/// Upper-case hexadecimal digit for `d < 16`.
pub open spec fn hex_digit_spec(d: nat) -> char {
    if d < 10 {
        ((d + 48) as u8) as char
    } else {
        ((d + 55) as u8) as char
    }
}

/// `%XX` for one byte, upper-case hex.
pub open spec fn pct_spec(b: u8) -> Seq<char> {
    seq!['%', hex_digit_spec((b / 16) as nat), hex_digit_spec((b % 16) as nat)]
}

/// Percent-encoding of every byte in `bs`.
pub open spec fn pct_all_spec(bs: Seq<u8>) -> Seq<char>
    decreases bs.len(),
{
    if bs.len() == 0 {
        seq![]
    } else {
        pct_all_spec(bs.drop_last()) + pct_spec(bs.last())
    }
}

/// Encoding of one byte of a path segment.
pub open spec fn segment_byte_spec(b: u8) -> Seq<char> {
    if is_unreserved(b) {
        seq![b as char]
    } else {
        pct_spec(b)
    }
}

pub open spec fn segment_bytes_spec(bs: Seq<u8>) -> Seq<char>
    decreases bs.len(),
{
    if bs.len() == 0 {
        seq![]
    } else {
        segment_bytes_spec(bs.drop_last()) + segment_byte_spec(bs.last())
    }
}

/// The percent-encoded form of `s` as one URL path segment: each byte of
/// its UTF-8 encoding is kept when unreserved and written `%XX` otherwise.
pub open spec fn encode_path_segment_spec(s: Seq<char>) -> Seq<char> {
    segment_bytes_spec(encode_utf8(s))
}

/// A character that can stand in a URL path segment as is: an ASCII
/// letter or digit, `-`, `_`, `.`, `~`, or the `%` of an escape.
pub open spec fn is_segment_safe(c: char) -> bool {
    ('A' <= c && c <= 'Z') || ('a' <= c && c <= 'z') || ('0' <= c && c <= '9') || c == '-' || c
        == '_' || c == '.' || c == '~' || c == '%'
}

proof fn lemma_byte_safe(b: u8)
    ensures
        forall|i: int| 0 <= i < segment_byte_spec(b).len() ==> is_segment_safe(
            #[trigger] segment_byte_spec(b)[i],
        ),
{
    let hi = (b / 16) as nat;
    let lo = (b % 16) as nat;
    assert(hi < 16 && lo < 16);
    assert(is_segment_safe(hex_digit_spec(hi)));
    assert(is_segment_safe(hex_digit_spec(lo)));
}

/// An encoded segment holds only letters, digits, `-_.~` and `%`
/// escapes: no space, slash or non-ASCII character survives.
pub proof fn lemma_encoded_segment_is_safe(s: Seq<char>)
    ensures
        forall|i: int| 0 <= i < encode_path_segment_spec(s).len() ==> is_segment_safe(
            #[trigger] encode_path_segment_spec(s)[i],
        ),
{
    lemma_bytes_safe(encode_utf8(s));
}

proof fn lemma_bytes_safe(bs: Seq<u8>)
    ensures
        forall|i: int| 0 <= i < segment_bytes_spec(bs).len() ==> is_segment_safe(
            #[trigger] segment_bytes_spec(bs)[i],
        ),
    decreases bs.len(),
{
    if bs.len() > 0 {
        lemma_bytes_safe(bs.drop_last());
        lemma_byte_safe(bs.last());
        let a = segment_bytes_spec(bs.drop_last());
        let b = segment_byte_spec(bs.last());
        assert forall|i: int| 0 <= i < segment_bytes_spec(bs).len() implies is_segment_safe(
            #[trigger] segment_bytes_spec(bs)[i],
        ) by {
            if i < a.len() {
                assert(segment_bytes_spec(bs)[i] == a[i]);
            } else {
                assert(segment_bytes_spec(bs)[i] == b[i - a.len()]);
            }
        }
    }
}

/// Value of a hexadecimal digit, either case.
pub open spec fn hex_value(c: char) -> int {
    if '0' <= c && c <= '9' {
        c as int - '0' as int
    } else if 'A' <= c && c <= 'F' {
        c as int - 'A' as int + 10
    } else {
        c as int - 'a' as int + 10
    }
}

/// Percent-decoding: each `%XY` gives the byte `0xXY`, any other
/// character its own code.
pub open spec fn percent_decode_spec(s: Seq<char>) -> Seq<u8>
    decreases s.len(),
{
    if s.len() == 0 {
        seq![]
    } else if s[0] == '%' && s.len() >= 3 {
        seq![(hex_value(s[1]) * 16 + hex_value(s[2])) as u8] + percent_decode_spec(s.skip(3))
    } else {
        seq![s[0] as u8] + percent_decode_spec(s.skip(1))
    }
}

/// Every `%` in `s` starts a complete escape.
pub open spec fn escapes_complete(s: Seq<char>) -> bool {
    forall|j: int| 0 <= j < s.len() && #[trigger] s[j] == '%' ==> j + 3 <= s.len()
}

proof fn lemma_hex_round_trip(d: nat)
    requires
        d < 16,
    ensures
        hex_value(hex_digit_spec(d)) == d,
        hex_digit_spec(d) != '%',
{
}

proof fn lemma_byte_round_trip(b: u8)
    ensures
        percent_decode_spec(segment_byte_spec(b)) == seq![b],
        escapes_complete(segment_byte_spec(b)),
{
    let u = segment_byte_spec(b);
    if is_unreserved(b) {
        assert(u.skip(1) =~= Seq::<char>::empty());
        assert(percent_decode_spec(u.skip(1)) =~= Seq::<u8>::empty());
        assert(u[0] == b as char);
        assert(u[0] != '%');
        assert((b as char) as u8 == b);
        assert(percent_decode_spec(u) == seq![u[0] as u8] + percent_decode_spec(u.skip(1)));
        assert(percent_decode_spec(u) =~= seq![b]);
    } else {
        let hi = (b / 16) as nat;
        let lo = (b % 16) as nat;
        lemma_hex_round_trip(hi);
        lemma_hex_round_trip(lo);
        assert(u.skip(3) =~= Seq::<char>::empty());
        assert(percent_decode_spec(u.skip(3)) =~= Seq::<u8>::empty());
        assert(hex_value(u[1]) * 16 + hex_value(u[2]) == b);
        assert(percent_decode_spec(u) == seq![(hex_value(u[1]) * 16 + hex_value(u[2])) as u8]
            + percent_decode_spec(u.skip(3)));
        assert(percent_decode_spec(u) =~= seq![b]);
    }
}

proof fn lemma_decode_concat(x: Seq<char>, y: Seq<char>)
    requires
        escapes_complete(x),
    ensures
        percent_decode_spec(x + y) == percent_decode_spec(x) + percent_decode_spec(y),
    decreases x.len(),
{
    if x.len() == 0 {
        assert(x + y =~= y);
        assert(percent_decode_spec(x) =~= Seq::<u8>::empty());
        assert(percent_decode_spec(x) + percent_decode_spec(y) =~= percent_decode_spec(y));
    } else {
        let n: int = if x[0] == '%' { 3 } else { 1 };
        assert(x[0] == '%' ==> 0 + 3 <= x.len());
        assert((x + y).skip(n) =~= x.skip(n) + y);
        assert forall|j: int| 0 <= j < x.skip(n).len() && #[trigger] x.skip(n)[j] == '%' implies j
            + 3 <= x.skip(n).len() by {
            assert(x[j + n] == '%');
        }
        lemma_decode_concat(x.skip(n), y);
        assert((x + y)[0] == x[0]);
        if x[0] == '%' {
            assert((x + y)[1] == x[1] && (x + y)[2] == x[2]);
        }
        assert(percent_decode_spec(x + y) =~= percent_decode_spec(x) + percent_decode_spec(y));
    }
}

proof fn lemma_bytes_round_trip(bs: Seq<u8>)
    ensures
        percent_decode_spec(segment_bytes_spec(bs)) == bs,
        escapes_complete(segment_bytes_spec(bs)),
    decreases bs.len(),
{
    if bs.len() == 0 {
        assert(percent_decode_spec(segment_bytes_spec(bs)) =~= bs);
    } else {
        let a = segment_bytes_spec(bs.drop_last());
        let u = segment_byte_spec(bs.last());
        lemma_bytes_round_trip(bs.drop_last());
        lemma_byte_round_trip(bs.last());
        lemma_decode_concat(a, u);
        assert(segment_bytes_spec(bs) == a + u);
        assert(bs.drop_last() + seq![bs.last()] =~= bs);
        assert forall|j: int| 0 <= j < (a + u).len() && #[trigger] (a + u)[j] == '%' implies j
            + 3 <= (a + u).len() by {
            if j < a.len() {
                assert(a[j] == '%');
            } else {
                assert(u[j - a.len()] == '%');
            }
        }
    }
}

/// Decoding an encoded segment gives back exactly the UTF-8 bytes of the
/// text: the encoding loses nothing.
pub proof fn lemma_encode_path_segment_round_trip(s: Seq<char>)
    ensures
        percent_decode_spec(encode_path_segment_spec(s)) == encode_utf8(s),
{
    lemma_bytes_round_trip(encode_utf8(s));
}

/// A character that the segment encoding keeps as it is.
pub open spec fn is_unreserved_char(c: char) -> bool {
    c as u32 <= 0x7f && is_unreserved((c as u32) as u8)
}

proof fn lemma_segment_len(bs: Seq<u8>)
    ensures
        segment_bytes_spec(bs).len() >= bs.len(),
        segment_bytes_spec(bs).len() == bs.len() <==> forall|i: int|
            0 <= i < bs.len() ==> is_unreserved(#[trigger] bs[i]),
    decreases bs.len(),
{
    if bs.len() > 0 {
        let front = bs.drop_last();
        lemma_segment_len(front);
        if segment_bytes_spec(bs).len() == bs.len() {
            assert forall|i: int| 0 <= i < bs.len() implies is_unreserved(#[trigger] bs[i]) by {
                if i < front.len() {
                    assert(front[i] == bs[i]);
                }
            }
        }
        if forall|i: int| 0 <= i < bs.len() ==> is_unreserved(#[trigger] bs[i]) {
            assert forall|i: int| 0 <= i < front.len() implies is_unreserved(#[trigger] front[i]) by {
                assert(front[i] == bs[i]);
            }
            assert(is_unreserved(bs[bs.len() - 1]));
        }
    }
}

proof fn lemma_segment_identity(bs: Seq<u8>)
    requires
        forall|i: int| 0 <= i < bs.len() ==> is_unreserved(#[trigger] bs[i]),
    ensures
        segment_bytes_spec(bs) == bs.map_values(|b: u8| b as char),
    decreases bs.len(),
{
    if bs.len() > 0 {
        let front = bs.drop_last();
        assert forall|i: int| 0 <= i < front.len() implies is_unreserved(#[trigger] front[i]) by {
            assert(front[i] == bs[i]);
        }
        lemma_segment_identity(front);
        assert(is_unreserved(bs[bs.len() - 1]));
        assert(segment_bytes_spec(bs) =~= bs.map_values(|b: u8| b as char));
    }
}

proof fn lemma_ascii_byte(c: char)
    requires
        c as u32 <= 0x7f,
    ensures
        encode_scalar(c as u32) == seq![(c as u32) as u8],
{
    let x = c as u32;
    assert(x & 0x7f == x) by (bit_vector)
        requires
            x <= 0x7f,
    ;
}

proof fn lemma_utf8_len(s: Seq<char>)
    ensures
        encode_utf8(s).len() >= s.len(),
        encode_utf8(s).len() == s.len() <==> forall|i: int|
            0 <= i < s.len() ==> #[trigger] s[i] as u32 <= 0x7f,
        encode_utf8(s).len() == s.len() ==> encode_utf8(s) == s.map_values(
            |c: char| (c as u32) as u8,
        ),
    decreases s.len(),
{
    if s.len() > 0 {
        let rest = s.drop_first();
        lemma_utf8_len(rest);
        char_is_scalar(s[0]);
        let head = encode_scalar(s[0] as u32);
        assert(encode_utf8(s) == head + encode_utf8(rest));
        assert(head.len() >= 1);
        assert(head.len() == 1 <==> s[0] as u32 <= 0x7f);
        if encode_utf8(s).len() == s.len() {
            assert forall|i: int| 0 <= i < s.len() implies #[trigger] s[i] as u32 <= 0x7f by {
                if i > 0 {
                    assert(rest[i - 1] == s[i]);
                }
            }
            lemma_ascii_byte(s[0]);
            assert(encode_utf8(s) =~= s.map_values(|c: char| (c as u32) as u8));
        }
        if forall|i: int| 0 <= i < s.len() ==> #[trigger] s[i] as u32 <= 0x7f {
            assert forall|i: int| 0 <= i < rest.len() implies #[trigger] rest[i] as u32 <= 0x7f by {
                assert(rest[i] == s[i + 1]);
            }
            assert(s[0] as u32 <= 0x7f);
        }
    }
}

/// The encoding leaves a text unchanged exactly when every character of
/// it is an unreserved ASCII character.
pub proof fn lemma_encode_path_segment_fixed_points(s: Seq<char>)
    ensures
        encode_path_segment_spec(s) == s <==> forall|i: int|
            0 <= i < s.len() ==> is_unreserved_char(#[trigger] s[i]),
{
    let bs = encode_utf8(s);
    lemma_segment_len(bs);
    lemma_utf8_len(s);
    if forall|i: int| 0 <= i < s.len() ==> is_unreserved_char(#[trigger] s[i]) {
        assert forall|i: int| 0 <= i < s.len() implies #[trigger] s[i] as u32 <= 0x7f by {
            assert(is_unreserved_char(s[i]));
        }
        assert forall|i: int| 0 <= i < bs.len() implies is_unreserved(#[trigger] bs[i]) by {
            assert(is_unreserved_char(s[i]));
        }
        lemma_segment_identity(bs);
        let r = encode_path_segment_spec(s);
        assert(r.len() == s.len());
        assert forall|i: int| 0 <= i < s.len() implies #[trigger] r[i] == s[i] by {
            let x = s[i] as u32;
            assert(x <= 0x7f);
            assert((x as u8) as u32 == x) by (bit_vector)
                requires
                    x <= 0x7f,
            ;
            assert(bs[i] == x as u8);
            char_u32_cast(s[i], x);
            assert(r[i] == bs[i] as char);
        }
        assert(r =~= s);
    }
    if encode_path_segment_spec(s) == s {
        assert forall|i: int| 0 <= i < s.len() implies is_unreserved_char(#[trigger] s[i]) by {
            assert(s[i] as u32 <= 0x7f);
            assert(bs[i] == (s[i] as u32) as u8);
            assert(is_unreserved(bs[i]));
        }
    }
}

fn hex_digit(d: u8) -> (c: char)
    requires
        d < 16,
    ensures
        c == hex_digit_spec(d as nat),
{
    if d < 10 {
        (48u8 + d) as char
    } else {
        (55u8 + d) as char
    }
}

fn push_pct(out: &mut String, b: u8)
    ensures
        final(out)@ == old(out)@ + pct_spec(b),
{
    push_char(out, '%');
    push_char(out, hex_digit(b / 16));
    push_char(out, hex_digit(b % 16));
    assert(final(out)@ == old(out)@ + pct_spec(b));
}

/// Percent-encodes a string for use as a single URL path segment.
/// Every byte outside the RFC 3986 unreserved set (`A-Z a-z 0-9 - _ . ~`)
/// becomes `%XX`, so spaces, slashes and non-ASCII text are safe.
pub fn encode_path_segment(s: &str) -> (r: String)
    ensures
        r@ == encode_path_segment_spec(s@),
{
    let bytes = s.as_bytes();
    let mut r = String::new();
    let mut i: usize = 0;
    while i < bytes.len()
        invariant
            i <= bytes.len(),
            bytes@ == encode_utf8(s@),
            r@ == segment_bytes_spec(bytes@.take(i as int)),
        decreases bytes.len() - i,
    {
        assert(bytes@.take((i + 1) as int).drop_last() == bytes@.take(i as int));
        let b = bytes[i];
        if (0x41 <= b && b <= 0x5a) || (0x61 <= b && b <= 0x7a) || (0x30 <= b && b <= 0x39) || b
            == 0x2d || b == 0x5f || b == 0x2e || b == 0x7e {
            push_char(&mut r, b as char);
        } else {
            push_pct(&mut r, b);
        }
        i += 1;
    }
    assert(bytes@.take(bytes.len() as int) == bytes@);
    r
}

/// Appends `%XX` for every byte of `bs`.
pub fn push_pct_all(out: &mut String, bs: &[u8])
    ensures
        final(out)@ == old(out)@ + pct_all_spec(bs@),
{
    let ghost start = out@;
    let mut i: usize = 0;
    while i < bs.len()
        invariant
            i <= bs.len(),
            out@ == start + pct_all_spec(bs@.take(i as int)),
        decreases bs.len() - i,
    {
        assert(bs@.take((i + 1) as int).drop_last() == bs@.take(i as int));
        push_pct(out, bs[i]);
        i += 1;
    }
    assert(bs@.take(bs.len() as int) == bs@);
}

/// The address of a word's page under `base`: the base, a slash, and
/// the trimmed word as one encoded path segment.
pub open spec fn word_url_spec(base: Seq<char>, spell: Seq<char>) -> Seq<char> {
    base + "/"@ + encode_path_segment_spec(trim_spec(spell))
}

pub fn word_url(base: &str, spell: &str) -> (r: String)
    ensures
        r@ == word_url_spec(base@, spell@),
{
    let mut r = String::new();
    push_str(&mut r, base);
    push_str(&mut r, "/");
    let t = trim(spell);
    let e = encode_path_segment(t.as_str());
    push_str(&mut r, e.as_str());
    r
}

} // verus!
