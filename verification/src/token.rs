//! Token generation: 128 random bits, encoded as a URL- and cookie-safe
//! string.
//!
//! The randomness comes from the operating system through a trusted wrapper;
//! the encoding is this crate's own verified base64url (no padding) writer.
//! Session identifiers and CSRF tokens are both minted here, so neither is
//! ever derived from user-controlled input.

use vstd::prelude::*;

use crate::defs::TOKEN_LEN;

verus! {

/// Number of random bytes behind every token: 128 bits of entropy.
pub const TOKEN_BYTES: usize = 16;

/// Ascii code of the base64url digit for a 6-bit value.
///
/// Values 0..25 map to 'A'..'Z', 26..51 to 'a'..'z', 52..61 to '0'..'9',
/// 62 to '-' and 63 to '_' (the URL-safe alphabet, no padding character).
pub open spec fn b64url_byte(v: u8) -> u8
    recommends
        v < 64,
{
    if v < 26 {
        (0x41 + v) as u8
    } else if v < 52 {
        (0x61 + (v - 26)) as u8
    } else if v < 62 {
        (0x30 + (v - 52)) as u8
    } else if v == 62 {
        0x2d
    } else {
        0x5f
    }
}

/// The base64url digit for a 6-bit value, as a character.
pub open spec fn b64url_char(v: u8) -> char
    recommends
        v < 64,
{
    b64url_byte(v) as char
}

/// Base64url (URL-safe alphabet, unpadded) encoding of a byte sequence.
///
/// Groups of three bytes become four digits; a final group of one or two
/// bytes becomes two or three digits and no padding is emitted.
pub open spec fn base64url(bytes: Seq<u8>) -> Seq<char>
    decreases bytes.len(),
{
    if bytes.len() == 0 {
        Seq::empty()
    } else if bytes.len() == 1 {
        let b0 = bytes[0];
        seq![b64url_char(b0 >> 2), b64url_char((b0 & 0x03) << 4)]
    } else if bytes.len() == 2 {
        let b0 = bytes[0];
        let b1 = bytes[1];
        seq![
            b64url_char(b0 >> 2),
            b64url_char(((b0 & 0x03) << 4) | (b1 >> 4)),
            b64url_char((b1 & 0x0f) << 2),
        ]
    } else {
        let b0 = bytes[0];
        let b1 = bytes[1];
        let b2 = bytes[2];
        seq![
            b64url_char(b0 >> 2),
            b64url_char(((b0 & 0x03) << 4) | (b1 >> 4)),
            b64url_char(((b1 & 0x0f) << 2) | (b2 >> 6)),
            b64url_char(b2 & 0x3f),
        ] + base64url(bytes.skip(3))
    }
}

/// Characters that may appear in an encoded token: letters, digits,
/// '-' and '_'.  All of them are safe inside a cookie value and a URL.
pub open spec fn is_b64url_char(c: char) -> bool {
    (0x41 <= c as u32 && c as u32 <= 0x5a)  // 'A'..'Z'
        || (0x61 <= c as u32 && c as u32 <= 0x7a)  // 'a'..'z'
        || (0x30 <= c as u32 && c as u32 <= 0x39)  // '0'..'9'
        || c as u32 == 0x2d  // '-'
        || c as u32 == 0x5f  // '_'
}

/// The encoding of `n` bytes has `n / 3 * 4` digits for the full groups and
/// two or three more for a trailing group of one or two bytes.
pub proof fn lemma_base64url_len(bytes: Seq<u8>)
    ensures
        base64url(bytes).len() == (bytes.len() / 3) * 4 + (
        if bytes.len() % 3 == 0 {
            0int
        } else {
            bytes.len() % 3 + 1int
        }),
    decreases bytes.len(),
{
    if bytes.len() >= 3 {
        lemma_base64url_len(bytes.skip(3));
    }
}

/// Every character of an encoded byte sequence is URL- and cookie-safe.
pub proof fn lemma_base64url_safe(bytes: Seq<u8>)
    ensures
        forall|i: int| 0 <= i < base64url(bytes).len() ==> is_b64url_char(#[trigger] base64url(
            bytes,
        )[i]),
    decreases bytes.len(),
{
    assert(forall|v: u8| is_b64url_char(#[trigger] b64url_char(v)));
    if bytes.len() >= 3 {
        lemma_base64url_safe(bytes.skip(3));
        assert forall|i: int| 0 <= i < base64url(bytes).len() implies is_b64url_char(
            base64url(bytes)[i],
        ) by {
            if i >= 4 {
                assert(base64url(bytes)[i] == base64url(bytes.skip(3))[i - 4]);
            }
        }
    }
}

/// Two different 6-bit values have two different base64url digits.
proof fn lemma_b64url_char_injective(v: u8, w: u8)
    requires
        v < 64,
        w < 64,
        b64url_char(v) == b64url_char(w),
    ensures
        v == w,
{
    assert((b64url_byte(v) as char) as u8 == b64url_byte(v));
    assert((b64url_byte(w) as char) as u8 == b64url_byte(w));
}

/// Law: the encoding is injective — byte strings of equal length that
/// encode to the same text are equal.  Two tokens can therefore collide
/// only if the random bytes behind them collide, which is what makes
/// collisions across the service's lifetime negligible.
pub proof fn lemma_base64url_injective(a: Seq<u8>, b: Seq<u8>)
    requires
        a.len() == b.len(),
        base64url(a) == base64url(b),
    ensures
        a == b,
    decreases a.len(),
{
    if a.len() == 0 {
        assert(a =~= b);
    } else if a.len() == 1 {
        let x = a[0];
        let y = b[0];
        assert(base64url(a)[0] == base64url(b)[0] && base64url(a)[1] == base64url(b)[1]);
        assert((x >> 2) < 64 && ((x & 0x03) << 4) < 64 && (y >> 2) < 64 && ((y & 0x03) << 4)
            < 64) by (bit_vector);
        lemma_b64url_char_injective(x >> 2, y >> 2);
        lemma_b64url_char_injective((x & 0x03) << 4, (y & 0x03) << 4);
        assert((x >> 2) == (y >> 2) && ((x & 0x03) << 4) == ((y & 0x03) << 4) ==> x
            == y) by (bit_vector);
        assert(a =~= b);
    } else if a.len() == 2 {
        let x0 = a[0];
        let x1 = a[1];
        let y0 = b[0];
        let y1 = b[1];
        assert(base64url(a)[0] == base64url(b)[0] && base64url(a)[1] == base64url(b)[1]
            && base64url(a)[2] == base64url(b)[2]);
        assert((x0 >> 2) < 64 && (((x0 & 0x03) << 4) | (x1 >> 4)) < 64 && ((x1 & 0x0f) << 2) < 64
            && (y0 >> 2) < 64 && (((y0 & 0x03) << 4) | (y1 >> 4)) < 64 && ((y1 & 0x0f) << 2)
            < 64) by (bit_vector);
        lemma_b64url_char_injective(x0 >> 2, y0 >> 2);
        lemma_b64url_char_injective(((x0 & 0x03) << 4) | (x1 >> 4), ((y0 & 0x03) << 4) | (y1 >> 4));
        lemma_b64url_char_injective((x1 & 0x0f) << 2, (y1 & 0x0f) << 2);
        assert((x0 >> 2) == (y0 >> 2) && (((x0 & 0x03) << 4) | (x1 >> 4)) == (((y0 & 0x03) << 4) | (
        y1 >> 4)) && ((x1 & 0x0f) << 2) == ((y1 & 0x0f) << 2) ==> x0 == y0 && x1
            == y1) by (bit_vector);
        assert(a =~= b);
    } else {
        let x0 = a[0];
        let x1 = a[1];
        let x2 = a[2];
        let y0 = b[0];
        let y1 = b[1];
        let y2 = b[2];
        assert(base64url(a)[0] == b64url_char(x0 >> 2) && base64url(a)[1] == b64url_char(
            ((x0 & 0x03) << 4) | (x1 >> 4),
        ) && base64url(a)[2] == b64url_char(((x1 & 0x0f) << 2) | (x2 >> 6)) && base64url(a)[3]
            == b64url_char(x2 & 0x3f));
        assert(base64url(b)[0] == b64url_char(y0 >> 2) && base64url(b)[1] == b64url_char(
            ((y0 & 0x03) << 4) | (y1 >> 4),
        ) && base64url(b)[2] == b64url_char(((y1 & 0x0f) << 2) | (y2 >> 6)) && base64url(b)[3]
            == b64url_char(y2 & 0x3f));
        assert((x0 >> 2) < 64 && (((x0 & 0x03) << 4) | (x1 >> 4)) < 64 && (((x1 & 0x0f) << 2) | (x2
            >> 6)) < 64 && (x2 & 0x3f) < 64 && (y0 >> 2) < 64 && (((y0 & 0x03) << 4) | (y1 >> 4))
            < 64 && (((y1 & 0x0f) << 2) | (y2 >> 6)) < 64 && (y2 & 0x3f) < 64) by (bit_vector);
        lemma_b64url_char_injective(x0 >> 2, y0 >> 2);
        lemma_b64url_char_injective(((x0 & 0x03) << 4) | (x1 >> 4), ((y0 & 0x03) << 4) | (y1 >> 4));
        lemma_b64url_char_injective(((x1 & 0x0f) << 2) | (x2 >> 6), ((y1 & 0x0f) << 2) | (y2 >> 6));
        lemma_b64url_char_injective(x2 & 0x3f, y2 & 0x3f);
        assert((x0 >> 2) == (y0 >> 2) && (((x0 & 0x03) << 4) | (x1 >> 4)) == (((y0 & 0x03) << 4) | (
        y1 >> 4)) && (((x1 & 0x0f) << 2) | (x2 >> 6)) == (((y1 & 0x0f) << 2) | (y2 >> 6)) && (x2
            & 0x3f) == (y2 & 0x3f) ==> x0 == y0 && x1 == y1 && x2 == y2) by (bit_vector);
        lemma_base64url_len(a.skip(3));
        lemma_base64url_len(b.skip(3));
        assert forall|i: int| 0 <= i < base64url(a.skip(3)).len() implies base64url(a.skip(3))[i]
            == base64url(b.skip(3))[i] by {
            assert(base64url(a)[i + 4] == base64url(a.skip(3))[i]);
            assert(base64url(b)[i + 4] == base64url(b.skip(3))[i]);
        }
        assert(base64url(a.skip(3)) =~= base64url(b.skip(3)));
        lemma_base64url_injective(a.skip(3), b.skip(3));
        assert forall|i: int| 0 <= i < a.len() implies a[i] == b[i] by {
            if i >= 3 {
                assert(a.skip(3)[i - 3] == b.skip(3)[i - 3]);
            }
        }
        assert(a =~= b);
    }
}

/// Relies on `String::push`: appends exactly the given character to the end
/// of the string.
#[verifier::external_body]
fn push_char(s: &mut String, c: char)
    ensures
        final(s)@ == old(s)@.push(c),
{
    s.push(c)
}

/// Relies on `rand::thread_rng` / `RngCore::fill_bytes`: fills the buffer
/// with bytes from a cryptographically secure generator that is seeded from
/// the operating system and is safe to use concurrently from many request
/// handlers.  When the entropy source is unavailable it panics rather than
/// returning weak or constant output.  Nothing can be promised about the
/// values, so the contract states only how many bytes come back.
#[verifier::external_body]
fn random_bytes() -> (r: Vec<u8>)
    ensures
        r@.len() == TOKEN_BYTES,
{
    let mut buf = [0u8; 16];
    rand::RngCore::fill_bytes(&mut rand::thread_rng(), &mut buf);
    buf.to_vec()
}

/// The base64url digit for a 6-bit value.
fn b64url_digit(v: u8) -> (c: char)
    requires
        v < 64,
    ensures
        c == b64url_char(v),
{
    let b: u8 = if v < 26 {
        0x41 + v
    } else if v < 52 {
        0x61 + (v - 26)
    } else if v < 62 {
        0x30 + (v - 52)
    } else if v == 62 {
        0x2d
    } else {
        0x5f
    };
    b as char
}

/// Encodes a byte slice as unpadded base64url text.
pub fn base64url_encode(bytes: &[u8]) -> (s: String)
    ensures
        s@ == base64url(bytes@),
{
    let n = bytes.len();
    let mut s = String::new();
    let mut i: usize = 0;
    proof {
        assert(bytes@.skip(0) == bytes@);
    }
    while n - i >= 3
        invariant
            i <= n,
            n == bytes@.len(),
            base64url(bytes@) =~= s@ + base64url(bytes@.skip(i as int)),
        decreases n - i,
    {
        let b0 = bytes[i];
        let b1 = bytes[i + 1];
        let b2 = bytes[i + 2];
        assert((b0 >> 2) < 64 && (((b0 & 0x03) << 4) | (b1 >> 4)) < 64 && (((b1 & 0x0f) << 2) | (
        b2 >> 6)) < 64 && (b2 & 0x3f) < 64) by (bit_vector);
        push_char(&mut s, b64url_digit(b0 >> 2));
        push_char(&mut s, b64url_digit(((b0 & 0x03) << 4) | (b1 >> 4)));
        push_char(&mut s, b64url_digit(((b1 & 0x0f) << 2) | (b2 >> 6)));
        push_char(&mut s, b64url_digit(b2 & 0x3f));
        proof {
            let rest = bytes@.skip(i as int);
            assert(rest[0] == b0 && rest[1] == b1 && rest[2] == b2);
            assert(rest.skip(3) =~= bytes@.skip(i + 3));
        }
        i = i + 3;
    }
    if n - i == 1 {
        let b0 = bytes[i];
        assert((b0 >> 2) < 64 && ((b0 & 0x03) << 4) < 64) by (bit_vector);
        push_char(&mut s, b64url_digit(b0 >> 2));
        push_char(&mut s, b64url_digit((b0 & 0x03) << 4));
        proof {
            let rest = bytes@.skip(i as int);
            assert(rest.len() == 1 && rest[0] == b0);
        }
    } else if n - i == 2 {
        let b0 = bytes[i];
        let b1 = bytes[i + 1];
        assert((b0 >> 2) < 64 && (((b0 & 0x03) << 4) | (b1 >> 4)) < 64 && ((b1 & 0x0f) << 2)
            < 64) by (bit_vector);
        push_char(&mut s, b64url_digit(b0 >> 2));
        push_char(&mut s, b64url_digit(((b0 & 0x03) << 4) | (b1 >> 4)));
        push_char(&mut s, b64url_digit((b1 & 0x0f) << 2));
        proof {
            let rest = bytes@.skip(i as int);
            assert(rest.len() == 2 && rest[0] == b0 && rest[1] == b1);
        }
    }
    proof {
        assert(s@ =~= base64url(bytes@));
    }
    s
}

/// Mints a fresh 128-bit token: random bytes from a secure source, encoded
/// with the URL-safe alphabet.  Used both for session identifiers and for
/// CSRF tokens.  The value is a function of fresh entropy alone, so the
/// contract promises only its shape: twenty-two URL- and cookie-safe
/// characters encoding sixteen bytes.
pub fn generate_session_token() -> (t: String)
    ensures
        t@.len() == TOKEN_LEN,
        forall|i: int| 0 <= i < t@.len() ==> is_b64url_char(#[trigger] t@[i]),
        exists|b: Seq<u8>| b.len() == TOKEN_BYTES && t@ == base64url(b),
{
    let bytes = random_bytes();
    let t = base64url_encode(bytes.as_slice());
    proof {
        lemma_base64url_len(bytes@);
        lemma_base64url_safe(bytes@);
    }
    t
}

} // verus!
