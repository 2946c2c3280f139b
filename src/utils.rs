use vstd::prelude::*;

verus! {

/// Copies every byte of `source` to the front of `target`, leaving the rest of `target` as it was.
pub fn copy_into_array(source: &[u8], target: &mut [u8])
    requires
        source@.len() <= old(target)@.len(),
    ensures
        final(target)@.len() == old(target)@.len(),
        final(target)@ == source@ + old(target)@.subrange(source@.len() as int, old(target)@.len() as int),
{
    let mut cntr: usize = 0;
    while cntr < source.len()
        invariant
            cntr <= source@.len(),
            source@.len() <= target@.len(),
            target@.len() == old(target)@.len(),
            forall|i: int| 0 <= i < cntr ==> target@[i] == source@[i],
            forall|i: int| cntr <= i < target@.len() ==> target@[i] == old(target)@[i],
        decreases source@.len() - cntr,
    {
        target[cntr] = source[cntr];
        cntr += 1;
    }
    assert(target@ =~= source@ + old(target)@.subrange(source@.len() as int, old(target)@.len() as int));
}

/// The key used where the build supplies none.
pub const DEFAULT_KEY: &'static str = "A0B1C2D3E4F5061728394A5B6C7D8E9F";

pub open spec fn is_hex_digit(c: u8) -> bool {
    (0x30 <= c <= 0x39) || (0x41 <= c <= 0x46) || (0x61 <= c <= 0x66)
}

pub open spec fn hex_digit_value(c: u8) -> nat {
    if 0x30 <= c <= 0x39 {
        (c - 0x30) as nat
    } else if 0x41 <= c <= 0x46 {
        (c - 0x41 + 10) as nat
    } else {
        (c - 0x61 + 10) as nat
    }
}

/// The number that a string of hexadecimal digits denotes, most significant digit first.
pub open spec fn hex_value(s: Seq<u8>) -> nat
    decreases s.len(),
{
    if s.len() == 0 {
        0
    } else {
        hex_value(s.drop_last()) * 16 + hex_digit_value(s.last())
    }
}

/// The digits of a number's text: an optional leading `+` is dropped.
pub open spec fn key_digits(text: Seq<u8>) -> Seq<u8> {
    if text.len() > 0 && text[0] == 0x2b {
        text.drop_first()
    } else {
        text
    }
}

/// The text holds a hexadecimal number that fits in 128 bits.
pub open spec fn valid_key_text(text: Seq<u8>) -> bool {
    let d = key_digits(text);
    &&& d.len() > 0
    &&& forall|i: int| 0 <= i < d.len() ==> is_hex_digit(#[trigger] d[i])
    &&& hex_value(d) < 0x1_0000_0000_0000_0000_0000_0000_0000_0000
}

/// `v` divided by 256, `i` times.
pub open spec fn shifted_bytes(v: nat, i: nat) -> nat
    decreases i,
{
    if i == 0 {
        v
    } else {
        shifted_bytes(v, (i - 1) as nat) / 256
    }
}

/// Byte `i` of `v` in little-endian order.
pub open spec fn le_byte(v: nat, i: nat) -> u8 {
    (shifted_bytes(v, i) % 256) as u8
}

proof fn lemma_hex_value_prefix_grows(s: Seq<u8>, j: int, k: int)
    requires
        0 <= j <= k <= s.len(),
    ensures
        hex_value(s.subrange(0, j)) <= hex_value(s.subrange(0, k)),
    decreases k - j,
{
    if j < k {
        lemma_hex_value_prefix_grows(s, j, k - 1);
        assert(s.subrange(0, k).drop_last() =~= s.subrange(0, k - 1));
    }
}

/// Reads the pre-shared key from the text of a hexadecimal number (an optional `+`, then the
/// digits), and returns its 16 bytes in little-endian order; `None` where the text is no such
/// number or the number does not fit in 128 bits.
pub fn get_key(text: &[u8]) -> (r: Option<[u8; 16]>)
    ensures
        r is Some <==> valid_key_text(text@),
        r matches Some(k) ==> forall|i: int|
            0 <= i < 16 ==> #[trigger] k@[i] == le_byte(hex_value(key_digits(text@)), i as nat),
{
    let start: usize = if text.len() > 0 && text[0] == 0x2b { 1 } else { 0 };
    let ghost d = key_digits(text@);
    assert(d =~= text@.subrange(start as int, text@.len() as int));
    if start >= text.len() {
        return None;
    }
    let mut acc: u128 = 0;
    let mut i: usize = start;
    while i < text.len()
        invariant
            start <= i <= text@.len(),
            d == text@.subrange(start as int, text@.len() as int),
            d == key_digits(text@),
            forall|j: int| 0 <= j < i - start ==> is_hex_digit(#[trigger] d[j]),
            acc as nat == hex_value(d.subrange(0, i - start)),
        decreases text@.len() - i,
    {
        let c = text[i];
        let ghost k = i - start;
        assert(d[k as int] == c);
        let digit: u128 = if 0x30 <= c && c <= 0x39 {
            (c - 0x30) as u128
        } else if 0x41 <= c && c <= 0x46 {
            (c - 0x41 + 10) as u128
        } else if 0x61 <= c && c <= 0x66 {
            (c - 0x61 + 10) as u128
        } else {
            proof {
                assert(!is_hex_digit(d[k as int]));
            }
            return None;
        };
        assert(d.subrange(0, k + 1).drop_last() =~= d.subrange(0, k));
        assert(d.subrange(0, k + 1).last() == c);
        assert(digit as nat == hex_digit_value(c));
        assert(hex_value(d.subrange(0, k + 1)) == acc * 16 + digit);
        if acc > (u128::MAX - digit) / 16 {
            proof {
                assert(acc * 16 + digit > u128::MAX) by (nonlinear_arith)
                    requires
                        acc > (u128::MAX - digit) / 16,
                        digit <= 15,
                ;
                lemma_hex_value_prefix_grows(d, k + 1, d.len() as int);
                assert(d.subrange(0, d.len() as int) =~= d);
            }
            return None;
        }
        proof {
            assert(acc * 16 + digit <= u128::MAX) by (nonlinear_arith)
                requires
                    acc <= (u128::MAX - digit) / 16,
                    digit <= 15,
            ;
        }
        acc = acc * 16 + digit;
        i += 1;
    }
    assert(d.subrange(0, d.len() as int) =~= d);
    let mut out: [u8; 16] = [0u8; 16];
    let mut rest: u128 = acc;
    let mut b: usize = 0;
    while b < 16
        invariant
            b <= 16,
            rest as nat == shifted_bytes(acc as nat, b as nat),
            forall|j: int| 0 <= j < b ==> #[trigger] out@[j] == le_byte(acc as nat, j as nat),
        decreases 16 - b,
    {
        out[b] = (rest % 256) as u8;
        rest = rest / 256;
        b += 1;
    }
    Some(out)
}

} // verus!
