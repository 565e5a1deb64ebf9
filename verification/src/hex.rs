//! Lowercase hexadecimal encoding of bytes and of 64-bit words.

use vstd::prelude::*;

verus! {

/// The lowercase hexadecimal digit of a nibble `n` (`0 <= n < 16`).
pub open spec fn hex_char(n: int) -> char {
    if n < 10 {
        (48 + n) as char
    } else {
        (87 + n) as char
    }
}

/// Lowercase hex encoding of a byte sequence: two digits per byte, high nibble first.
pub open spec fn hex_lower(bytes: Seq<u8>) -> Seq<char> {
    Seq::new(
        2 * bytes.len(),
        |i: int|
            if i % 2 == 0 {
                hex_char(bytes[i / 2] as int / 16)
            } else {
                hex_char(bytes[i / 2] as int % 16)
            },
    )
}

/// `h` shifted right by `k` nibbles.
pub open spec fn nibble_shift(h: nat, k: nat) -> nat
    decreases k,
{
    if k == 0 {
        h
    } else {
        nibble_shift(h, (k - 1) as nat) / 16
    }
}

/// The `k`-th nibble of `h`, counted from the least significant one.
pub open spec fn nibble(h: nat, k: nat) -> nat {
    nibble_shift(h, k) % 16
}

/// A 64-bit word as exactly sixteen lowercase hex digits, most significant first
/// (the `{:016x}` rendering).
pub open spec fn hex_u64(h: u64) -> Seq<char> {
    Seq::new(16, |i: int| hex_char(nibble(h as nat, (15 - i) as nat) as int))
}

/// Appends one character to a `String` (`String::push`).
#[verifier::external_body]
pub(crate) fn push_char(s: &mut String, c: char)
    ensures
        final(s)@ == old(s)@.push(c),
{
    s.push(c);
}

/// The hex digit character of a nibble.
fn hex_digit(n: u8) -> (c: char)
    requires
        n < 16,
    ensures
        c == hex_char(n as int),
{
    if n < 10 {
        (48u8 + n) as char
    } else {
        (87u8 + n) as char
    }
}

/// Renders a 64-bit word as sixteen lowercase hex digits, zero padded.
pub fn format_hex_u64(h: u64) -> (res: String)
    ensures
        res@ == hex_u64(h),
        res@.len() == 16,
{
    // digits[k] is the k-th nibble from the least significant end
    let mut digits: Vec<u8> = Vec::new();
    let mut x: u64 = h;
    for k in 0..16u64
        invariant
            x as nat == nibble_shift(h as nat, k as nat),
            digits@.len() == k,
            forall|j: int| 0 <= j < k ==> #[trigger] digits@[j] as nat == nibble(h as nat, j as nat),
    {
        digits.push((x % 16) as u8);
        x = x / 16;
    }
    let mut out = String::new();
    for i in 0..16usize
        invariant
            digits@.len() == 16,
            forall|j: int| 0 <= j < 16 ==> #[trigger] digits@[j] as nat == nibble(h as nat, j as nat),
            out@ == hex_u64(h).subrange(0, i as int),
    {
        let d = digits[15 - i];
        push_char(&mut out, hex_digit(d));
        assert(out@ =~= hex_u64(h).subrange(0, i + 1));
    }
    assert(out@ =~= hex_u64(h));
    out
}

} // verus!
