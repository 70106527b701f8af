//! Byte-buffer helpers shared by the cartridge and memory code.
use vstd::prelude::*;

verus! {

/// Copies `b[start..end]` into a fresh vector.
pub fn copy_range(b: &[u8], start: usize, end: usize) -> (v: Vec<u8>)
    requires
        start <= end <= b@.len(),
    ensures
        v@ == b@.subrange(start as int, end as int),
{
    let mut v: Vec<u8> = Vec::new();
    let mut i = start;
    while i < end
        invariant
            start <= i <= end <= b@.len(),
            v@ == b@.subrange(start as int, i as int),
        decreases end - i,
    {
        v.push(b[i]);
        i = i + 1;
        proof {
            assert(v@ =~= b@.subrange(start as int, i as int));
        }
    }
    v
}

/// Appends all of `b` to `v`.
pub fn append_slice(v: &mut Vec<u8>, b: &[u8])
    ensures
        final(v)@ == old(v)@ + b@,
{
    let mut i: usize = 0;
    while i < b.len()
        invariant
            i <= b@.len(),
            v@ == old(v)@ + b@.subrange(0, i as int),
        decreases b@.len() - i,
    {
        v.push(b[i]);
        i = i + 1;
        proof {
            assert(v@ =~= old(v)@ + b@.subrange(0, i as int));
        }
    }
    proof {
        assert(b@.subrange(0, b@.len() as int) =~= b@);
    }
}

/// A vector of `n` zero bytes.
pub fn zeros(n: usize) -> (v: Vec<u8>)
    ensures
        v@ == Seq::new(n as nat, |i: int| 0u8),
{
    let mut v: Vec<u8> = Vec::new();
    let mut i: usize = 0;
    while i < n
        invariant
            i <= n,
            v@ == Seq::new(i as nat, |j: int| 0u8),
        decreases n - i,
    {
        v.push(0);
        i = i + 1;
        proof {
            assert(v@ =~= Seq::new(i as nat, |j: int| 0u8));
        }
    }
    v
}

/// Bank `bank` of size `size` lies inside a buffer of `n` such banks.
pub proof fn lemma_bank_offset(bank: int, n: int, size: int, off: int)
    requires
        0 <= bank < n,
        0 <= off < size,
    ensures
        0 <= bank * size + off < n * size,
        bank * size + size <= n * size,
{
    assert(0 <= bank * size + off < n * size) by (nonlinear_arith)
        requires 0 <= bank < n, 0 <= off < size;
    assert(bank * size + size <= n * size) by (nonlinear_arith)
        requires 0 <= bank < n, 0 <= off < size;
}

} // verus!
