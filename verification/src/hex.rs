//! Hexadecimal digits.
use vstd::prelude::*;

verus! {

/// The hexadecimal digit of a number below sixteen, in lower case.
pub open spec fn hex_digit(n: int) -> char {
    if n < 10 {
        (0x30 + n) as char
    } else {
        (0x61 + n - 10) as char
    }
}

/// Two hexadecimal digits for each byte, the high one first.
pub open spec fn hex_of(bytes: Seq<u8>) -> Seq<char> {
    Seq::new(
        2 * bytes.len(),
        |i: int|
            if i % 2 == 0 {
                hex_digit(bytes[i / 2] as int / 16)
            } else {
                hex_digit(bytes[i / 2] as int % 16)
            },
    )
}

/// Calls `array_bytes::bytes2hex` with an empty prefix: the result is two lower case
/// hexadecimal digits for each byte, the high one first.
#[verifier::external_body]
pub(crate) fn bytes_to_hex(bytes: &[u8]) -> (hex: String)
    ensures
        hex@ == hex_of(bytes@),
{
    array_bytes::bytes2hex("", bytes)
}

/// Different bytes of the same number have different digits.
pub proof fn lemma_hex_is_injective(a: Seq<u8>, b: Seq<u8>)
    requires
        a.len() == b.len(),
        hex_of(a) == hex_of(b),
    ensures
        a == b,
{
    assert forall|i: int| 0 <= i < a.len() implies a[i] == b[i] by {
        let (high, low) = (2 * i, 2 * i + 1);
        assert(high / 2 == i && high % 2 == 0);
        assert(low / 2 == i && low % 2 == 1);
        assert(hex_of(a)[high] == hex_digit(a[high / 2] as int / 16));
        assert(hex_of(b)[high] == hex_digit(b[high / 2] as int / 16));
        assert(hex_of(a)[low] == hex_digit(a[low / 2] as int % 16));
        assert(hex_of(b)[low] == hex_digit(b[low / 2] as int % 16));
        lemma_digit_is_injective(a[i] as int / 16, b[i] as int / 16);
        lemma_digit_is_injective(a[i] as int % 16, b[i] as int % 16);
    }
    assert(a =~= b);
}

/// Different numbers have different digits.
proof fn lemma_digit_is_injective(m: int, n: int)
    requires
        0 <= m < 16,
        0 <= n < 16,
        hex_digit(m) == hex_digit(n),
    ensures
        m == n,
{
    assert(hex_digit(m) as int == if m < 10 { 0x30 + m } else { 0x61 + m - 10 });
    assert(hex_digit(n) as int == if n < 10 { 0x30 + n } else { 0x61 + n - 10 });
}

/// What a hexadecimal digit in lower case stands for.
pub open spec fn digit_value(digit: char) -> int {
    if '0' <= digit <= '9' {
        digit as int - '0' as int
    } else {
        digit as int - 'a' as int + 10
    }
}

/// Each byte is told by two digits, the first of which counts sixteen times.
pub proof fn lemma_digits_tell_bytes(bytes: Seq<u8>, i: int)
    requires
        0 <= i < bytes.len(),
    ensures
        hex_of(bytes).len() == 2 * bytes.len(),
        '0' <= hex_of(bytes)[2 * i] <= '9' || 'a' <= hex_of(bytes)[2 * i] <= 'f',
        '0' <= hex_of(bytes)[2 * i + 1] <= '9' || 'a' <= hex_of(bytes)[2 * i + 1] <= 'f',
        bytes[i] == 16 * digit_value(hex_of(bytes)[2 * i]) + digit_value(
            hex_of(bytes)[2 * i + 1],
        ),
{
    let (high, low) = (2 * i, 2 * i + 1);
    assert(high / 2 == i && high % 2 == 0);
    assert(low / 2 == i && low % 2 == 1);
    let (h, l) = (bytes[i] as int / 16, bytes[i] as int % 16);
    assert(hex_of(bytes)[high] == hex_digit(h));
    assert(hex_of(bytes)[low] == hex_digit(l));
    assert(hex_digit(h) as int == if h < 10 { 0x30 + h } else { 0x61 + h - 10 });
    assert(hex_digit(l) as int == if l < 10 { 0x30 + l } else { 0x61 + l - 10 });
}

} // verus!
