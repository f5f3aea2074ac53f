use vstd::prelude::*;

verus! {

/// Value of a byte string read as a little-endian unsigned integer:
/// the byte at index 0 is the least significant.
pub open spec fn le_bytes_value(s: Seq<u8>) -> nat
    decreases s.len(),
{
    if s.len() == 0 {
        0nat
    } else {
        s[0] as nat + 256nat * le_bytes_value(s.drop_first())
    }
}

/// 256 raised to the given power: one more than the largest value a byte
/// string of that length can denote.
pub open spec fn pow256(n: nat) -> nat
    decreases n,
{
    if n == 0 {
        1nat
    } else {
        256nat * pow256((n - 1) as nat)
    }
}

pub proof fn lemma_pow256_16()
    ensures
        pow256(16) == 0x1_0000_0000_0000_0000_0000_0000_0000_0000nat,
{
    reveal_with_fuel(pow256, 17);
}

pub proof fn lemma_pow256_monotone(m: nat, n: nat)
    requires
        m <= n,
    ensures
        pow256(m) <= pow256(n),
    decreases n,
{
    if m < n {
        lemma_pow256_monotone(m, (n - 1) as nat);
        assert(pow256(n) == 256 * pow256((n - 1) as nat));
    }
}

/// A byte string of length n denotes a value below 256^n.
pub proof fn lemma_le_bytes_value_bound(s: Seq<u8>)
    ensures
        le_bytes_value(s) < pow256(s.len()),
    decreases s.len(),
{
    if s.len() == 0 {
    } else {
        lemma_le_bytes_value_bound(s.drop_first());
        assert(le_bytes_value(s) == s[0] as nat + 256 * le_bytes_value(s.drop_first()));
        assert(pow256(s.len()) == 256 * pow256((s.len() - 1) as nat));
    }
}

/// Splitting a little-endian byte string splits its value at the
/// corresponding power of 256.
pub proof fn lemma_le_bytes_value_append(a: Seq<u8>, b: Seq<u8>)
    ensures
        le_bytes_value(a + b) == le_bytes_value(a) + pow256(a.len()) * le_bytes_value(b),
    decreases a.len(),
{
    if a.len() == 0 {
        assert(a + b =~= b);
        let pa = pow256(a.len());
        let bv = le_bytes_value(b);
        assert(pa == 1nat);
        assert(pa * bv == bv) by (nonlinear_arith)
            requires
                pa == 1nat,
        ;
    } else {
        lemma_le_bytes_value_append(a.drop_first(), b);
        assert((a + b).drop_first() =~= a.drop_first() + b);
        let ad = le_bytes_value(a.drop_first());
        let pd = pow256(a.drop_first().len());
        let pa = pow256(a.len());
        let bv = le_bytes_value(b);
        assert(pa == 256nat * pd);
        assert(256nat * (ad + pd * bv) == 256nat * ad + pa * bv) by (nonlinear_arith)
            requires
                pa == 256nat * pd,
        ;
        assert((a + b).len() > 0);
        assert((a + b)[0] == a[0]);
        assert(le_bytes_value(a + b) == (a + b)[0] as nat + 256nat * le_bytes_value((a + b).drop_first()));
        assert(le_bytes_value(a + b) == a[0] as nat + 256nat * (ad + pd * bv));
        assert(le_bytes_value(a) == a[0] as nat + 256nat * ad);
    }
}

/// Reads exactly 16 bytes as a little-endian unsigned 128-bit integer.
pub fn u128_from_le_bytes(b: &Vec<u8>) -> (r: u128)
    requires
        b@.len() == 16,
    ensures
        r as nat == le_bytes_value(b@),
{
    let mut acc: u128 = 0;
    let mut i: usize = 16;
    while i > 0
        invariant
            i <= 16,
            b@.len() == 16,
            acc as nat == le_bytes_value(b@.skip(i as int)),
        decreases i,
    {
        proof {
            lemma_le_bytes_value_bound(b@.skip(i as int));
            lemma_pow256_monotone((16 - i) as nat, 15nat);
            lemma_pow256_16();
            assert(pow256(16) == 256 * pow256(15));
        }
        i = i - 1;
        proof {
            assert(b@.skip(i as int).drop_first() =~= b@.skip(i as int + 1));
        }
        acc = acc * 256 + (b[i] as u128);
    }
    proof {
        assert(b@.skip(0) =~= b@);
    }
    acc
}

/// Writes a 128-bit integer as its 16 little-endian bytes.
pub fn u128_to_le_bytes(v: u128) -> (r: Vec<u8>)
    ensures
        r@.len() == 16,
        le_bytes_value(r@) == v as nat,
{
    let mut out: Vec<u8> = Vec::new();
    let mut rem: u128 = v;
    let mut i: usize = 0;
    proof {
        lemma_pow256_16();
        assert(pow256(0) * (v as nat) == v as nat) by (nonlinear_arith)
            requires
                pow256(0) == 1nat,
        ;
    }
    while i < 16
        invariant
            i <= 16,
            out@.len() == i,
            le_bytes_value(out@) + pow256(i as nat) * (rem as nat) == v as nat,
            (rem as nat) < pow256((16 - i) as nat),
        decreases 16 - i,
    {
        let byte: u8 = (rem % 256) as u8;
        let ghost prev = out@;
        let ghost rem_prev = rem as nat;
        out.push(byte);
        rem = rem / 256;
        i = i + 1;
        proof {
            let p = pow256((i - 1) as nat);
            let p1 = pow256(i as nat);
            assert(p1 == 256nat * p);
            assert(out@ =~= prev + seq![byte]);
            lemma_le_bytes_value_append(prev, seq![byte]);
            assert(seq![byte].drop_first() =~= Seq::<u8>::empty());
            assert(le_bytes_value(Seq::<u8>::empty()) == 0);
            assert(seq![byte].len() == 1 && seq![byte][0] == byte);
            assert(le_bytes_value(seq![byte])
                == byte as nat + 256nat * le_bytes_value(seq![byte].drop_first()));
            assert(le_bytes_value(seq![byte]) == byte as nat);
            assert(rem_prev == byte as nat + 256nat * (rem as nat));
            assert(p * rem_prev == p * (byte as nat) + p1 * (rem as nat)) by (nonlinear_arith)
                requires
                    p1 == 256nat * p,
                    rem_prev == byte as nat + 256nat * (rem as nat),
            ;
            assert(pow256((16 - (i - 1)) as nat) == 256nat * pow256((16 - i) as nat));
            assert((rem as nat) < pow256((16 - i) as nat)) by (nonlinear_arith)
                requires
                    rem_prev < 256nat * pow256((16 - i) as nat),
                    rem as nat == rem_prev / 256,
            ;
        }
    }
    proof {
        assert(rem == 0);
        assert(pow256(16) * (rem as nat) == 0) by (nonlinear_arith)
            requires
                rem == 0,
        ;
    }
    out
}

/// Copies the bytes whose indices lie in the given half-open range into a
/// fresh vector.
pub fn bytes_range(b: &Vec<u8>, from: usize, to: usize) -> (r: Vec<u8>)
    requires
        from <= to <= b@.len(),
    ensures
        r@ == b@.subrange(from as int, to as int),
{
    let mut out: Vec<u8> = Vec::new();
    let mut i: usize = from;
    while i < to
        invariant
            from <= i <= to <= b@.len(),
            out@ == b@.subrange(from as int, i as int),
        decreases to - i,
    {
        out.push(b[i]);
        i = i + 1;
        proof {
            assert(out@ =~= b@.subrange(from as int, i as int));
        }
    }
    out
}

} // verus!
