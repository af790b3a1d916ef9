//! Little-endian byte encodings of unsigned values, as The Standard writes every number.
use vstd::prelude::*;

verus! {

/// `256` to the power `n`.
pub open spec fn pow256(n: nat) -> nat
    decreases n,
{
    if n == 0 {
        1
    } else {
        256 * pow256((n - 1) as nat)
    }
}

/// The `n` low bytes of `v`, least significant first.
pub open spec fn le_bytes(v: nat, n: nat) -> Seq<u8>
    decreases n,
{
    if n == 0 {
        Seq::empty()
    } else {
        seq![(v % 256) as u8] + le_bytes(v / 256, (n - 1) as nat)
    }
}

/// The value that little-endian bytes write.
pub open spec fn le_value(b: Seq<u8>) -> nat
    decreases b.len(),
{
    if b.len() == 0 {
        0
    } else {
        b[0] as nat + 256 * le_value(b.drop_first())
    }
}

pub proof fn lemma_pow256_positive(n: nat)
    ensures
        pow256(n) >= 1,
    decreases n,
{
    if n > 0 {
        lemma_pow256_positive((n - 1) as nat);
    }
}

pub proof fn lemma_pow256_values()
    ensures
        pow256(0) == 1,
        pow256(1) == 256,
        pow256(2) == 0x1_0000,
        pow256(4) == 0x1_0000_0000,
        pow256(7) == 0x100_0000_0000_0000,
        pow256(8) == 0x1_0000_0000_0000_0000,
{
    reveal_with_fuel(pow256, 9);
}

pub proof fn lemma_le_bytes_len(v: nat, n: nat)
    ensures
        le_bytes(v, n).len() == n,
    decreases n,
{
    if n > 0 {
        lemma_le_bytes_len(v / 256, (n - 1) as nat);
    }
}

/// Writing a value in `n` bytes and reading it back gives the value, when it fits.
pub proof fn lemma_le_round_trip(v: nat, n: nat)
    requires
        v < pow256(n),
    ensures
        le_value(le_bytes(v, n)) == v,
        le_bytes(v, n).len() == n,
    decreases n,
{
    lemma_le_bytes_len(v, n);
    if n > 0 {
        let p = pow256((n - 1) as nat);
        assert(v / 256 < p) by (nonlinear_arith)
            requires
                v < 256 * p,
        ;
        lemma_le_round_trip(v / 256, (n - 1) as nat);
        let b = le_bytes(v, n);
        assert(b.drop_first() =~= le_bytes(v / 256, (n - 1) as nat));
        assert(b[0] == (v % 256) as u8);
        assert(v == v % 256 + 256 * (v / 256)) by (nonlinear_arith);
    }
}

/// The value read from `n` bytes is below `256^n`.
pub proof fn lemma_le_value_bound(b: Seq<u8>)
    ensures
        le_value(b) < pow256(b.len()),
    decreases b.len(),
{
    if b.len() > 0 {
        lemma_le_value_bound(b.drop_first());
        let p = pow256((b.len() - 1) as nat);
        let r = le_value(b.drop_first());
        let x = b[0] as nat;
        assert(x + 256 * r < 256 * p) by (nonlinear_arith)
            requires
                r < p,
                x < 256,
        ;
    }
}

/// Appends the `n` low bytes of `v`, least significant first.
pub fn push_le(out: &mut Vec<u8>, v: u64, n: usize)
    requires
        n <= 8,
    ensures
        final(out)@ == old(out)@ + le_bytes(v as nat, n as nat),
{
    let ghost start = old(out)@;
    let mut cur = v;
    let mut i: usize = 0;
    while i < n
        invariant
            i <= n,
            out@ + le_bytes(cur as nat, (n - i) as nat) == start + le_bytes(v as nat, n as nat),
        decreases n - i,
    {
        let ghost before = out@;
        out.push((cur % 256) as u8);
        proof {
            let k = (n - i) as nat;
            assert(le_bytes(cur as nat, k) == seq![(cur % 256) as u8] + le_bytes(cur as nat / 256, (k - 1) as nat));
            assert(out@ + le_bytes(cur as nat / 256, (k - 1) as nat) =~= before + le_bytes(cur as nat, k));
        }
        cur = cur / 256;
        i = i + 1;
    }
    assert(out@ =~= start + le_bytes(v as nat, n as nat));
}

/// The value of the `n` bytes of `b` from `from`, least significant first.
pub fn read_le(b: &[u8], from: usize, n: usize) -> (r: u64)
    requires
        n <= 8,
        from + n <= b@.len(),
    ensures
        r as nat == le_value(b@.subrange(from as int, from + n)),
{
    let len = b.len();
    let mut acc: u64 = 0;
    let mut i = n;
    proof {
        lemma_pow256_values();
        assert(b@.subrange(from + n, from + n) =~= Seq::<u8>::empty());
    }
    while i > 0
        invariant
            i <= n <= 8,
            from + n <= b@.len(),
            len == b@.len(),
            acc as nat == le_value(b@.subrange(from + i, from + n)),
            pow256(7) == 0x100_0000_0000_0000,
            pow256(8) == 0x1_0000_0000_0000_0000,
        decreases i,
    {
        let ghost s = b@.subrange(from + i - 1, from + n);
        proof {
            assert(s.drop_first() =~= b@.subrange(from + i, from + n));
            lemma_le_value_bound(b@.subrange(from + i, from + n));
            lemma_pow256_le((n - i) as nat, 7);
        }
        let x = b[from + i - 1];
        assert(acc < 0x100_0000_0000_0000);
        acc = x as u64 + 256 * acc;
        i = i - 1;
    }
    acc
}

pub proof fn lemma_pow256_le(a: nat, b: nat)
    requires
        a <= b,
    ensures
        pow256(a) <= pow256(b),
    decreases b,
{
    if a < b {
        lemma_pow256_le(a, (b - 1) as nat);
        lemma_pow256_positive((b - 1) as nat);
    }
}

/// Byte `i` of the `n` little-endian bytes of `v` is the `i`-th base-256 digit of `v`.
pub proof fn lemma_le_bytes_index(v: nat, n: nat, i: int)
    requires
        0 <= i < n,
    ensures
        le_bytes(v, n)[i] as int == (v / pow256(i as nat)) % 256,
    decreases n,
{
    lemma_le_bytes_len(v, n);
    let b = le_bytes(v, n);
    assert(b == seq![(v % 256) as u8] + le_bytes(v / 256, (n - 1) as nat));
    if i == 0 {
        assert(pow256(0) == 1) by {
            reveal_with_fuel(pow256, 1);
        }
        assert(v / pow256(0) == v);
        assert(b[0] == (v % 256) as u8);
        assert(((v % 256) as u8) as int == v % 256);
    } else {
        lemma_le_bytes_index(v / 256, (n - 1) as nat, i - 1);
        lemma_le_bytes_len(v / 256, (n - 1) as nat);
        assert(b[i] == le_bytes(v / 256, (n - 1) as nat)[i - 1]);
        let p = pow256((i - 1) as nat);
        lemma_pow256_positive((i - 1) as nat);
        assert(pow256(i as nat) == 256 * p);
        vstd::arithmetic::div_mod::lemma_div_denominator(v as int, 256, p as int);
        assert((v / 256) / p == v / pow256(i as nat));
    }
}

} // verus!
