//! Lowercase hexadecimal encoding of byte strings.

use vstd::prelude::*;
use crate::text::string_of;

verus! {

/// The lowercase hex digit for `d` (`0`..=`9`, then `a`..=`f`).
pub open spec fn hex_digit_spec(d: u8) -> char
    recommends
        d < 16,
{
    if d < 10 {
        (48 + d) as char
    } else {
        (87 + d) as char
    }
}

/// `c` is a lowercase hex digit.
pub open spec fn is_lower_hex_char(c: char) -> bool {
    ('0' <= c && c <= '9') || ('a' <= c && c <= 'f')
}

/// Two lowercase hex digits per byte, high nibble first (the `{:02x}`
/// formatting of each byte, concatenated).
pub open spec fn hex_lower_spec(bytes: Seq<u8>) -> Seq<char> {
    Seq::new(
        (2 * bytes.len()) as nat,
        |i: int|
            if i % 2 == 0 {
                hex_digit_spec(bytes[i / 2] / 16)
            } else {
                hex_digit_spec(bytes[i / 2] % 16)
            },
    )
}

/// The lowercase hex digit for `d`.
pub fn hex_digit(d: u8) -> (c: char)
    requires
        d < 16,
    ensures
        c == hex_digit_spec(d),
        is_lower_hex_char(c),
{
    if d < 10 {
        (48 + d) as char
    } else {
        (87 + d) as char
    }
}

/// Every character of a hex encoding is a lowercase hex digit, and it is
/// twice as long as the bytes it encodes.
pub proof fn lemma_hex_lower_shape(bytes: Seq<u8>)
    ensures
        hex_lower_spec(bytes).len() == 2 * bytes.len(),
        forall|i: int|
            0 <= i < 2 * bytes.len() ==> is_lower_hex_char(#[trigger] hex_lower_spec(bytes)[i]),
{
    assert forall|i: int| 0 <= i < 2 * bytes.len() implies is_lower_hex_char(
        #[trigger] hex_lower_spec(bytes)[i],
    ) by {
        let b = bytes[i / 2];
        assert(b / 16 < 16 && b % 16 < 16);
        let d = if i % 2 == 0 { b / 16 } else { b % 16 };
        assert(hex_lower_spec(bytes)[i] == hex_digit_spec(d));
    }
}

/// Encode `bytes` as lowercase hex, two digits per byte.
pub fn hex_lower(bytes: &[u8]) -> (r: String)
    requires
        2 * bytes@.len() <= usize::MAX,
    ensures
        r@ == hex_lower_spec(bytes@),
{
    let mut out: Vec<char> = Vec::new();
    let mut i: usize = 0;
    while i < bytes.len()
        invariant
            i <= bytes@.len(),
            2 * bytes@.len() <= usize::MAX,
            out@.len() == 2 * i,
            forall|k: int| 0 <= k < 2 * i ==> out@[k] == #[trigger] hex_lower_spec(bytes@)[k],
        decreases bytes@.len() - i,
    {
        let b = bytes[i];
        out.push(hex_digit(b / 16));
        out.push(hex_digit(b % 16));
        assert forall|k: int| 0 <= k < 2 * (i + 1) implies out@[k] == #[trigger] hex_lower_spec(
            bytes@,
        )[k] by {
            if k >= 2 * i {
                assert(k / 2 == i as int);
            }
        }
        i = i + 1;
    }
    assert(out@ =~= hex_lower_spec(bytes@));
    string_of(&out)
}

/// Distinct hex digits for distinct nibbles.
proof fn lemma_hex_digit_injective(d: u8, e: u8)
    requires
        d < 16,
        e < 16,
        hex_digit_spec(d) == hex_digit_spec(e),
    ensures
        d == e,
{
    let cd = hex_digit_spec(d);
    let ce = hex_digit_spec(e);
    assert(cd as int == ce as int);
    if d < 10 {
        assert(cd as int == 48 + d);
    } else {
        assert(cd as int == 87 + d);
    }
    if e < 10 {
        assert(ce as int == 48 + e);
    } else {
        assert(ce as int == 87 + e);
    }
}

/// The encoding loses nothing: byte strings with the same hex encoding are
/// the same byte string.
pub proof fn law_hex_lower_injective(a: Seq<u8>, b: Seq<u8>)
    requires
        hex_lower_spec(a) == hex_lower_spec(b),
    ensures
        a == b,
{
    assert(hex_lower_spec(a).len() == 2 * a.len());
    assert(a.len() == b.len());
    assert forall|i: int| 0 <= i < a.len() implies a[i] == b[i] by {
        let x = a[i];
        let y = b[i];
        assert((2 * i) / 2 == i && (2 * i) % 2 == 0);
        assert((2 * i + 1) / 2 == i && (2 * i + 1) % 2 == 1);
        let j = 2 * i;
        assert(hex_lower_spec(a)[j] == hex_digit_spec(a[j / 2] / 16));
        assert(hex_lower_spec(b)[j] == hex_digit_spec(b[j / 2] / 16));
        assert(hex_lower_spec(a)[j + 1] == hex_digit_spec(a[(j + 1) / 2] % 16));
        assert(hex_lower_spec(b)[j + 1] == hex_digit_spec(b[(j + 1) / 2] % 16));
        lemma_hex_digit_injective(x / 16, y / 16);
        lemma_hex_digit_injective(x % 16, y % 16);
        assert(x == 16 * (x / 16) + x % 16);
        assert(y == 16 * (y / 16) + y % 16);
    }
    assert(a =~= b);
}

} // verus!
