//! Fixed-length hex text: chain addresses, private keys and 32-byte words.
use vstd::prelude::*;

verus! {

pub open spec fn is_hex_digit(c: char) -> bool {
    ('0' <= c && c <= '9') || ('a' <= c && c <= 'f') || ('A' <= c && c <= 'F')
}

pub open spec fn hex_digit_value(c: char) -> int {
    if '0' <= c && c <= '9' {
        c as int - '0' as int
    } else if 'a' <= c && c <= 'f' {
        c as int - 'a' as int + 10
    } else {
        c as int - 'A' as int + 10
    }
}

/// The digits of hex text: the text without a leading `0x` or `0X`.
pub open spec fn hex_digits(s: Seq<char>) -> Seq<char> {
    if s.len() >= 2 && s[0] == '0' && (s[1] == 'x' || s[1] == 'X') {
        s.subrange(2, s.len() as int)
    } else {
        s
    }
}

/// The `n` bytes that hex text stands for, most significant digit first; `None`
/// unless the text is an optional `0x`/`0X` followed by exactly `2 * n` hex
/// digits of either case.
pub open spec fn hex_text_bytes(s: Seq<char>, n: nat) -> Option<Seq<u8>> {
    let d = hex_digits(s);
    if d.len() == 2 * n && forall|i: int| 0 <= i < d.len() ==> #[trigger] is_hex_digit(d[i]) {
        Some(
            Seq::new(
                n,
                |i: int| (16 * hex_digit_value(d[2 * i]) + hex_digit_value(d[2 * i + 1])) as u8,
            ),
        )
    } else {
        None
    }
}

/// Relies on alloy's `FixedBytes::<N>::from_str` (const-hex's
/// `decode_to_array`): it strips one `0x` or `0X` and accepts exactly `2 * N`
/// hex digits of either case, two per byte, high digit first.
#[verifier::external_body]
pub(crate) fn decode_hex_array<const N: usize>(text: &str) -> (r: Option<[u8; N]>)
    ensures
        r matches Some(b) ==> hex_text_bytes(text@, N as nat) == Some(b@),
        r is None ==> hex_text_bytes(text@, N as nat) is None,
{
    text.parse::<alloy::primitives::FixedBytes<N>>().ok().map(|b| b.0)
}

} // verus!
