//! Hex decoding of signature headers, and the spec-level encoding it inverts.

use vstd::prelude::*;

verus! {

/// True of the ASCII bytes that may stand in a hex string: `0-9`, `a-f`, `A-F`.
pub open spec fn is_hex_digit(b: u8) -> bool {
    (48 <= b && b <= 57) || (97 <= b && b <= 102) || (65 <= b && b <= 70)
}

/// The nibble a hex digit stands for.
pub open spec fn hex_digit_value(b: u8) -> u8
    recommends
        is_hex_digit(b),
{
    if 48 <= b && b <= 57 {
        (b - 48) as u8
    } else if 97 <= b && b <= 102 {
        (b - 87) as u8
    } else {
        (b - 55) as u8
    }
}

/// The byte a pair of hex digits stands for, most significant nibble first.
pub open spec fn hex_pair_value(hi: u8, lo: u8) -> u8
    recommends
        is_hex_digit(hi),
        is_hex_digit(lo),
{
    (hex_digit_value(hi) * 16 + hex_digit_value(lo)) as u8
}

/// A string decodes exactly when its length is even and every byte is a hex digit.
pub open spec fn is_hex_string(s: Seq<u8>) -> bool {
    s.len() % 2 == 0 && (forall|i: int| 0 <= i < s.len() ==> is_hex_digit(s[i]))
}

/// What hex decoding yields: one byte from each digit pair, or nothing at all.
pub open spec fn spec_from_hex(s: Seq<u8>) -> Option<Seq<u8>> {
    if is_hex_string(s) {
        Some(Seq::new(s.len() / 2, |i: int| hex_pair_value(s[2 * i], s[2 * i + 1])))
    } else {
        None
    }
}

/// The lowercase hex digit for a nibble.
pub open spec fn hex_digit_of(n: u8) -> u8
    recommends
        n < 16,
{
    if n < 10 {
        (48 + n) as u8
    } else {
        (87 + n) as u8
    }
}

/// The lowercase hex encoding of a byte sequence.
pub open spec fn spec_to_hex(b: Seq<u8>) -> Seq<u8> {
    Seq::new(
        2 * b.len(),
        |i: int|
            if i % 2 == 0 {
                hex_digit_of(b[i / 2] / 16)
            } else {
                hex_digit_of(b[i / 2] % 16)
            },
    )
}

fn hex_value(b: u8) -> (r: u8)
    requires
        is_hex_digit(b),
    ensures
        r == hex_digit_value(b),
        r < 16,
{
    if 48 <= b && b <= 57 {
        b - 48
    } else if 97 <= b && b <= 102 {
        b - 87
    } else {
        b - 55
    }
}

/// Decode a hex string into the bytes it spells, rejecting odd lengths and
/// bytes that are no hex digit.
pub fn from_hex(bytes: &[u8]) -> (r: Option<Vec<u8>>)
    ensures
        match r {
            Some(v) => spec_from_hex(bytes@) == Some(v@),
            None => spec_from_hex(bytes@) is None,
        },
{
    let n = bytes.len();
    if n % 2 == 1 {
        return None;
    }
    let mut i: usize = 0;
    while i < n
        invariant
            n == bytes@.len(),
            i <= n,
            forall|j: int| 0 <= j < i ==> is_hex_digit(bytes@[j]),
        decreases n - i,
    {
        let b = bytes[i];
        let ok = (48 <= b && b <= 57) || (97 <= b && b <= 102) || (65 <= b && b <= 70);
        if !ok {
            return None;
        }
        i += 1;
    }
    let mut out: Vec<u8> = Vec::new();
    let mut k: usize = 0;
    while k < n
        invariant
            n == bytes@.len(),
            n % 2 == 0,
            k % 2 == 0,
            k <= n,
            is_hex_string(bytes@),
            out@.len() == k / 2,
            forall|j: int| 0 <= j < k / 2 ==> out@[j] == hex_pair_value(bytes@[2 * j], bytes@[2 * j + 1]),
        decreases n - k,
    {
        assert(k + 1 < n);
        let hi = bytes[k];
        let lo = bytes[k + 1];
        let hv = hex_value(hi);
        let lv = hex_value(lo);
        out.push(hv * 16 + lv);
        k += 2;
    }
    proof {
        assert(out@ =~= spec_from_hex(bytes@).unwrap());
    }
    Some(out)
}

/// Law: decoding inverts encoding. The hex spelling of any byte sequence
/// decodes back to that sequence.
pub proof fn lemma_from_hex_inverts_to_hex(b: Seq<u8>)
    ensures
        spec_from_hex(spec_to_hex(b)) == Some(b),
{
    let h = spec_to_hex(b);
    assert forall|i: int| 0 <= i < h.len() implies is_hex_digit(h[i]) by {
        assert(b[i / 2] / 16 < 16);
        assert(b[i / 2] % 16 < 16);
    }
    assert(is_hex_string(h));
    let d = spec_from_hex(h).unwrap();
    assert forall|i: int| 0 <= i < d.len() implies d[i] == b[i] by {
        assert(h[2 * i] == hex_digit_of(b[i] / 16));
        assert(h[2 * i + 1] == hex_digit_of(b[i] % 16));
        assert(hex_digit_value(hex_digit_of((b[i] / 16) as u8)) == b[i] / 16);
        assert(hex_digit_value(hex_digit_of((b[i] % 16) as u8)) == b[i] % 16);
        assert(b[i] / 16 * 16 + b[i] % 16 == b[i]) by (nonlinear_arith);
    }
    assert(d =~= b);
}

/// Law: decoding is total in its rejection. A string of odd length, or one
/// holding any byte that is no hex digit, decodes to nothing.
pub proof fn lemma_from_hex_rejects(s: Seq<u8>)
    requires
        s.len() % 2 != 0 || (exists|i: int| 0 <= i < s.len() && !is_hex_digit(s[i])),
    ensures
        spec_from_hex(s) is None,
{
}

} // verus!
