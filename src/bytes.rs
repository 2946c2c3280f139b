use vstd::prelude::*;

use crate::utils::{le_byte, shifted_bytes};

verus! {

/// 256 to the power `n`.
pub open spec fn pow256(n: nat) -> nat
    decreases n,
{
    if n == 0 {
        1
    } else {
        256 * pow256((n - 1) as nat)
    }
}

/// The `n` low bytes of `v`, least significant first.
pub open spec fn le_seq(v: nat, n: nat) -> Seq<u8> {
    Seq::new(n, |i: int| le_byte(v, i as nat))
}

/// The number whose little-endian bytes are `s`.
pub open spec fn read_le(s: Seq<u8>) -> nat
    decreases s.len(),
{
    if s.len() == 0 {
        0
    } else {
        s[0] as nat + 256 * read_le(s.drop_first())
    }
}

proof fn lemma_shifted_bytes_step(v: nat, i: nat)
    ensures
        shifted_bytes(v, i + 1) == shifted_bytes(v / 256, i),
    decreases i,
{
    if i > 0 {
        lemma_shifted_bytes_step(v, (i - 1) as nat);
        assert(shifted_bytes(v, i + 1) == shifted_bytes(v, i) / 256);
        assert(shifted_bytes(v / 256, i) == shifted_bytes(v / 256, (i - 1) as nat) / 256);
    } else {
        assert(shifted_bytes(v, 1) == shifted_bytes(v, 0) / 256);
    }
}

/// Reading back the `n` low bytes of a number below 256^n gives the number.
pub proof fn lemma_read_le_seq(v: nat, n: nat)
    requires
        v < pow256(n),
    ensures
        read_le(le_seq(v, n)) == v,
    decreases n,
{
    if n == 0 {
    } else {
        let p = pow256((n - 1) as nat);
        assert(v / 256 < p) by (nonlinear_arith)
            requires
                v < 256 * p,
        ;
        lemma_read_le_seq(v / 256, (n - 1) as nat);
        assert forall|i: int| 0 <= i < n - 1 implies #[trigger] le_seq(v, n).drop_first()[i] == le_seq(
            v / 256,
            (n - 1) as nat,
        )[i] by {
            lemma_shifted_bytes_step(v, i as nat);
        }
        assert(le_seq(v, n).drop_first() =~= le_seq(v / 256, (n - 1) as nat));
        assert(le_seq(v, n)[0] as nat == v % 256);
        assert(v % 256 + 256 * (v / 256) == v) by (nonlinear_arith);
    }
}

/// Appends the `n` low bytes of `v` to `out`, least significant first.
pub fn push_le(out: &mut Vec<u8>, v: u64, n: usize)
    requires
        n <= 8,
    ensures
        final(out)@ == old(out)@ + le_seq(v as nat, n as nat),
{
    let ghost start = old(out)@;
    let mut rest: u64 = v;
    let mut i: usize = 0;
    while i < n
        invariant
            i <= n,
            rest as nat == shifted_bytes(v as nat, i as nat),
            out@ == start + le_seq(v as nat, i as nat),
        decreases n - i,
    {
        out.push((rest % 256) as u8);
        rest = rest / 256;
        i += 1;
        assert(out@ =~= start + le_seq(v as nat, i as nat));
    }
}

/// The number whose little-endian bytes are `data[start..start + n]`.
pub fn read_le_at(data: &[u8], start: usize, n: usize) -> (r: u64)
    requires
        n <= 8,
        start + n <= data@.len(),
    ensures
        r as nat == read_le(data@.subrange(start as int, start + n)),
{
    let total: usize = data.len();
    let mut acc: u64 = 0;
    let mut j: usize = n;
    while j > 0
        invariant
            total == data@.len(),
            j <= n,
            start + n <= data@.len(),
            n <= 8,
            acc as nat == read_le(data@.subrange(start + j, start + n)),
            acc < pow256((n - j) as nat),
        decreases j,
    {
        j -= 1;
        assert(start + j < data@.len());
        let ghost s = data@.subrange(start + j, start + n);
        assert(s.drop_first() =~= data@.subrange(start + j + 1, start + n));
        let b = data[start + j];
        proof {
            let p = pow256((n - j - 1) as nat);
            assert(pow256((n - j) as nat) == 256 * p);
            assert(p <= pow256(7)) by {
                lemma_pow256_mono((n - j - 1) as nat, 7);
            }
            assert(acc * 256 + b < 256 * p) by (nonlinear_arith)
                requires
                    acc < p,
                    b < 256,
            ;
            reveal_with_fuel(pow256, 9);
            assert(pow256(8) == 0x1_0000_0000_0000_0000);
            assert(pow256(7) * 256 == pow256(8));
        }
        acc = b as u64 + acc * 256;
    }
    acc
}

proof fn lemma_pow256_mono(a: nat, b: nat)
    requires
        a <= b,
    ensures
        pow256(a) <= pow256(b),
    decreases b,
{
    if a < b {
        lemma_pow256_mono(a, (b - 1) as nat);
    }
}

} // verus!
