//! Verified percent-encoding and -decoding for URL components.
//!
//! Encoding keeps the RFC 3986 unreserved characters (letters, digits,
//! `-`, `.`, `_`, `~`) and writes every other character as the
//! percent-escaped bytes of its UTF-8 encoding, upper-case hex digits.
//! Decoding turns well-formed `%XY` escapes back into characters,
//! keeps malformed escapes as literal text, and reports `None` for
//! escapes outside the ASCII range.

use vstd::prelude::*;
use vstd::string::StrSliceExecFns;
use vstd::string::StringExecFns;

verus! {

pub open spec fn is_unreserved(c: char) -> bool {
    (48 <= c as u32 <= 57)  // 0-9
     || (65 <= c as u32 <= 90)  // A-Z
     || (97 <= c as u32 <= 122)  // a-z
     || c == '-' || c == '.' || c == '_' || c == '~'
}

/// The character for one hex digit, upper case.
pub open spec fn hex_digit(d: nat) -> char {
    if d < 10 {
        crate::strutil::dec_digit(d)
    } else if d == 10 {
        'A'
    } else if d == 11 {
        'B'
    } else if d == 12 {
        'C'
    } else if d == 13 {
        'D'
    } else if d == 14 {
        'E'
    } else {
        'F'
    }
}

pub open spec fn is_hex_char(c: char) -> bool {
    (48 <= c as u32 <= 57) || (65 <= c as u32 <= 70) || (97 <= c as u32 <= 102)
}

pub open spec fn hex_char_val(c: char) -> nat {
    if 48 <= c as u32 <= 57 {
        (c as u32 - 48) as nat
    } else if 65 <= c as u32 <= 70 {
        (c as u32 - 55) as nat
    } else {
        (c as u32 - 87) as nat
    }
}

/// The UTF-8 bytes of one character.
pub open spec fn utf8_of(c: char) -> Seq<u8> {
    let u = c as u32;
    if u < 0x80 {
        seq![u as u8]
    } else if u < 0x800 {
        seq![(0xC0 + u / 0x40) as u8, (0x80 + u % 0x40) as u8]
    } else if u < 0x10000 {
        seq![(0xE0 + u / 0x1000) as u8, (0x80 + (u / 0x40) % 0x40) as u8, (0x80 + u % 0x40) as u8]
    } else {
        seq![
            (0xF0 + u / 0x40000) as u8,
            (0x80 + (u / 0x1000) % 0x40) as u8,
            (0x80 + (u / 0x40) % 0x40) as u8,
            (0x80 + u % 0x40) as u8,
        ]
    }
}

/// The three characters of one percent-escaped byte.
pub open spec fn pct_byte(b: u8) -> Seq<char> {
    seq!['%', hex_digit(b as nat / 16), hex_digit(b as nat % 16)]
}

pub open spec fn pct_encode_char(c: char) -> Seq<char> {
    if is_unreserved(c) {
        seq![c]
    } else {
        let bs = utf8_of(c);
        if bs.len() == 1 {
            pct_byte(bs[0])
        } else if bs.len() == 2 {
            pct_byte(bs[0]) + pct_byte(bs[1])
        } else if bs.len() == 3 {
            pct_byte(bs[0]) + pct_byte(bs[1]) + pct_byte(bs[2])
        } else {
            pct_byte(bs[0]) + pct_byte(bs[1]) + pct_byte(bs[2]) + pct_byte(bs[3])
        }
    }
}

/// The percent-encoding of a string.
pub open spec fn pct_encode_spec(s: Seq<char>) -> Seq<char>
    decreases s.len(),
{
    if s.len() == 0 {
        Seq::empty()
    } else {
        pct_encode_char(s[0]) + pct_encode_spec(s.skip(1))
    }
}

/// The percent-decoding of a string, or `None` when an escape falls
/// outside the ASCII range.
pub open spec fn pct_decode_spec(s: Seq<char>) -> Option<Seq<char>>
    decreases s.len(),
{
    if s.len() == 0 {
        Some(Seq::empty())
    } else if s[0] == '%' && s.len() >= 3 && is_hex_char(s[1]) && is_hex_char(s[2]) {
        let b = hex_char_val(s[1]) * 16 + hex_char_val(s[2]);
        if b >= 0x80 {
            None
        } else {
            match pct_decode_spec(s.skip(3)) {
                Some(t) => Some(seq![((b as u8) as char)] + t),
                None => None,
            }
        }
    } else {
        match pct_decode_spec(s.skip(1)) {
            Some(t) => Some(seq![s[0]] + t),
            None => None,
        }
    }
}

fn append_hex_pair(out: &mut String, b: u8)
    ensures
        final(out)@ == old(out)@ + pct_byte(b),
{
    let table = "0123456789ABCDEF";
    proof {
        reveal_strlit("0123456789ABCDEF");
        reveal_strlit("%");
    }
    let hi = (b / 16) as usize;
    let lo = (b % 16) as usize;
    out.append("%");
    out.append(table.substring_char(hi, hi + 1));
    out.append(table.substring_char(lo, lo + 1));
    proof {
        assert(out@ =~= old(out)@ + pct_byte(b));
    }
}

pub fn pct_encode(s: &str) -> (r: String)
    ensures
        r@ == pct_encode_spec(s@),
{
    let len = s.unicode_len();
    let mut out = String::new();
    let mut i: usize = 0;
    proof {
        assert(s@.skip(0) =~= s@);
    }
    while i < len
        invariant
            len == s@.len(),
            i <= len,
            out@ + pct_encode_spec(s@.skip(i as int)) == pct_encode_spec(s@),
        decreases len - i,
    {
        let ghost rem = s@.skip(i as int);
        proof {
            assert(rem[0] == s@[i as int]);
            assert(rem.skip(1) =~= s@.skip(i + 1));
        }
        let c = s.get_char(i);
        let u = c as u32;
        if (48 <= u && u <= 57) || (65 <= u && u <= 90) || (97 <= u && u <= 122) || c == '-' || c
            == '.' || c == '_' || c == '~' {
            out.append(s.substring_char(i, i + 1));
            proof {
                assert(s@.subrange(i as int, i + 1) =~= seq![c]);
                assert(out@ + pct_encode_spec(s@.skip(i + 1)) =~= pct_encode_spec(s@));
            }
        } else if u < 0x80 {
            append_hex_pair(&mut out, u as u8);
            proof {
                assert(utf8_of(c) =~= seq![u as u8]);
                assert(pct_encode_char(c) =~= pct_byte(u as u8));
                assert(out@ + pct_encode_spec(s@.skip(i + 1)) =~= pct_encode_spec(s@));
            }
        } else if u < 0x800 {
            let b0 = (0xC0 + u / 0x40) as u8;
            let b1 = (0x80 + u % 0x40) as u8;
            append_hex_pair(&mut out, b0);
            append_hex_pair(&mut out, b1);
            proof {
                assert(utf8_of(c) =~= seq![b0, b1]);
                assert(pct_encode_char(c) =~= pct_byte(b0) + pct_byte(b1));
                assert(out@ + pct_encode_spec(s@.skip(i + 1)) =~= pct_encode_spec(s@));
            }
        } else if u < 0x10000 {
            let b0 = (0xE0 + u / 0x1000) as u8;
            let b1 = (0x80 + (u / 0x40) % 0x40) as u8;
            let b2 = (0x80 + u % 0x40) as u8;
            append_hex_pair(&mut out, b0);
            append_hex_pair(&mut out, b1);
            append_hex_pair(&mut out, b2);
            proof {
                assert(utf8_of(c) =~= seq![b0, b1, b2]);
                assert(pct_encode_char(c) =~= pct_byte(b0) + pct_byte(b1) + pct_byte(b2));
                assert(out@ + pct_encode_spec(s@.skip(i + 1)) =~= pct_encode_spec(s@));
            }
        } else {
            let b0 = (0xF0 + u / 0x40000) as u8;
            let b1 = (0x80 + (u / 0x1000) % 0x40) as u8;
            let b2 = (0x80 + (u / 0x40) % 0x40) as u8;
            let b3 = (0x80 + u % 0x40) as u8;
            append_hex_pair(&mut out, b0);
            append_hex_pair(&mut out, b1);
            append_hex_pair(&mut out, b2);
            append_hex_pair(&mut out, b3);
            proof {
                assert(utf8_of(c) =~= seq![b0, b1, b2, b3]);
                assert(pct_encode_char(c) =~= pct_byte(b0) + pct_byte(b1) + pct_byte(b2) + pct_byte(
                    b3,
                ));
                assert(out@ + pct_encode_spec(s@.skip(i + 1)) =~= pct_encode_spec(s@));
            }
        }
        i = i + 1;
    }
    proof {
        assert(s@.skip(len as int) =~= Seq::<char>::empty());
        assert(out@ =~= pct_encode_spec(s@));
    }
    out
}

pub fn pct_decode(s: &str) -> (r: Option<String>)
    ensures
        r is Some <==> pct_decode_spec(s@) is Some,
        r matches Some(t) ==> Some(t@) == pct_decode_spec(s@),
{
    let len = s.unicode_len();
    let mut out = String::new();
    let mut i: usize = 0;
    proof {
        assert(s@.skip(0) =~= s@);
    }
    while i < len
        invariant
            len == s@.len(),
            i <= len,
            pct_decode_spec(s@) == match pct_decode_spec(s@.skip(i as int)) {
                Some(t) => Some(out@ + t),
                None => None::<Seq<char>>,
            },
        decreases len - i,
    {
        let ghost rem = s@.skip(i as int);
        proof {
            assert(rem[0] == s@[i as int]);
            if rem.len() >= 2 {
                assert(rem[1] == s@[i + 1]);
            }
            if rem.len() >= 3 {
                assert(rem[2] == s@[i + 2]);
            }
        }
        let c = s.get_char(i);
        let mut escaped = false;
        if c == '%' && len - i > 2 {
            let c1 = s.get_char(i + 1);
            let c2 = s.get_char(i + 2);
            let h1 = hex_val_exec(c1);
            let h2 = hex_val_exec(c2);
            match (h1, h2) {
                (Some(v1), Some(v2)) => {
                    let b = v1 * 16 + v2;
                    if b >= 0x80 {
                        return None;
                    }
                    append_ascii_char(&mut out, b);
                    proof {
                        assert(rem.skip(3) =~= s@.skip(i + 3));
                    }
                    i = i + 3;
                    escaped = true;
                },
                _ => {},
            }
        }
        if !escaped {
            proof {
                assert(rem.skip(1) =~= s@.skip(i + 1));
            }
            out.append(s.substring_char(i, i + 1));
            proof {
                assert(s@.subrange(i as int, i + 1) =~= seq![c]);
            }
            i = i + 1;
        }
    }
    proof {
        assert(s@.skip(len as int) =~= Seq::<char>::empty());
    }
    Some(out)
}

fn hex_val_exec(c: char) -> (r: Option<u8>)
    ensures
        r is Some <==> is_hex_char(c),
        r matches Some(v) ==> v == hex_char_val(c),
{
    let u = c as u32;
    if 48 <= u && u <= 57 {
        Some((u - 48) as u8)
    } else if 65 <= u && u <= 70 {
        Some((u - 55) as u8)
    } else if 97 <= u && u <= 102 {
        Some((u - 87) as u8)
    } else {
        None
    }
}

fn append_ascii_char(out: &mut String, b: u8)
    requires
        b < 0x80,
    ensures
        final(out)@ == old(out)@ + seq![(b as char)],
{
    let c = b as char;
    out.push(c);
    proof {
        assert(out@ =~= old(out)@ + seq![(b as char)]);
    }
}

/// Decoding undoes encoding on any ASCII string.
pub proof fn lemma_pct_round_trip(s: Seq<char>)
    requires
        forall|i: int| 0 <= i < s.len() ==> (s[i] as u32) < 0x80,
    ensures
        pct_decode_spec(pct_encode_spec(s)) == Some(s),
    decreases s.len(),
{
    if s.len() == 0 {
        assert(pct_encode_spec(s) =~= Seq::<char>::empty());
    } else {
        let c = s[0];
        let rest = s.skip(1);
        assert(forall|i: int| 0 <= i < rest.len() ==> (rest[i] as u32) < 0x80);
        lemma_pct_round_trip(rest);
        let e = pct_encode_spec(s);
        let ec = pct_encode_char(c);
        let er = pct_encode_spec(rest);
        if is_unreserved(c) {
            assert(ec =~= seq![c]);
            assert(e[0] == c);
            assert(c != '%');
            assert(e.skip(1) =~= er);
            if e.len() >= 3 && e[0] == '%' && is_hex_char(e[1]) && is_hex_char(e[2]) {
                assert(false);
            }
            match pct_decode_spec(er) {
                Some(t) => {
                    assert(t == rest);
                    assert(seq![c] + rest =~= s);
                },
                None => {
                    assert(false);
                },
            }
        } else {
            let u = c as u32;
            assert(utf8_of(c) =~= seq![u as u8]);
            assert(ec =~= pct_byte(u as u8));
            let h1 = hex_digit((u as u8) as nat / 16);
            let h2 = hex_digit((u as u8) as nat % 16);
            assert(ec =~= seq!['%', h1, h2]);
            assert(e[0] == '%' && e[1] == h1 && e[2] == h2);
            lemma_hex_digit_inverse((u as u8) as nat / 16);
            lemma_hex_digit_inverse((u as u8) as nat % 16);
            let b = hex_char_val(h1) * 16 + hex_char_val(h2);
            assert(b == u as u8);
            assert(e.skip(3) =~= er);
            match pct_decode_spec(er) {
                Some(t) => {
                    assert(t == rest);
                    assert(((b as u8) as char) == c) by {
                        vstd::utf8::char_u32_cast(c, u);
                        assert(b == u);
                    }
                    assert(seq![((b as u8) as char)] + rest =~= s);
                },
                None => {
                    assert(false);
                },
            }
        }
    }
}

proof fn lemma_hex_digit_inverse(d: nat)
    requires
        d < 16,
    ensures
        is_hex_char(hex_digit(d)),
        hex_char_val(hex_digit(d)) == d,
{
}

} // verus!
