use vstd::prelude::*;
use vstd::arithmetic::div_mod::lemma_fundamental_div_mod_converse;
use vstd::arithmetic::div_mod::lemma_fundamental_div_mod;

verus! {

/// `buf` resized to `n` bytes, as `Vec::resize` with zeros does it: cut
/// short, or extended with zero bytes.
pub open spec fn resized(buf: Seq<u8>, n: nat) -> Seq<u8> {
    if n <= buf.len() {
        buf.take(n as int)
    } else {
        buf + Seq::new((n - buf.len()) as nat, |i: int| 0u8)
    }
}

/// `base` with row `i` of `rows` written at offset `i * stride`: every
/// byte `p` that lies within the first `rows[p / stride].len()` bytes of its
/// slot comes from that row, every other byte from `base`.
pub open spec fn packed_rows(base: Seq<u8>, rows: Seq<Seq<u8>>, stride: nat) -> Seq<u8> {
    Seq::new(
        base.len(),
        |p: int|
            if p / (stride as int) < rows.len() && p % (stride as int) < rows[p / (stride as int)].len() {
                rows[p / (stride as int)][p % (stride as int)]
            } else {
                base[p]
            },
    )
}

/// The byte at offset `j` of slot `i` lies in that slot and no other.
pub proof fn lemma_slot_position(i: int, j: int, stride: int)
    requires
        0 <= i,
        0 <= j < stride,
    ensures
        (i * stride + j) / stride == i,
        (i * stride + j) % stride == j,
        i * stride <= i * stride + j < (i + 1) * stride,
        0 <= i * stride,
{
    lemma_fundamental_div_mod_converse(i * stride + j, stride, i, j);
    assert((i + 1) * stride == i * stride + stride) by (nonlinear_arith);
    assert(0 <= i * stride) by (nonlinear_arith)
        requires
            0 <= i,
            0 <= stride,
    ;
}

/// Slots further on start further on.
pub proof fn lemma_slot_order(i: int, k: int, stride: int)
    requires
        0 <= i <= k,
        0 <= stride,
    ensures
        i * stride <= k * stride,
{
    assert(i * stride <= k * stride) by (nonlinear_arith)
        requires
            0 <= i <= k,
            0 <= stride,
    ;
}

/// Resizes `buf` to `n` bytes, filling with zeros.
pub fn resize_zeroed(buf: &mut Vec<u8>, n: usize)
    ensures
        final(buf)@ == resized(old(buf)@, n as nat),
{
    buf.resize(n, 0u8);
    proof {
        if n > old(buf)@.len() {
            assert forall|i: int| old(buf)@.len() <= i < n implies #[trigger] buf@[i] == 0u8 by {
                assert(vstd::pervasive::cloned::<u8>(0u8, buf@[i]));
            }
            assert(buf@ =~= resized(old(buf)@, n as nat));
        } else {
            assert(buf@ =~= resized(old(buf)@, n as nat));
        }
    }
}

/// Copies `data` into `buf` at offset `start`.
pub fn copy_into(buf: &mut Vec<u8>, start: usize, data: &[u8])
    requires
        start + data@.len() <= old(buf)@.len(),
    ensures
        final(buf)@.len() == old(buf)@.len(),
        forall|p: int|
            0 <= p < final(buf)@.len() ==> #[trigger] final(buf)@[p] == if start <= p < start + data@.len() {
                data@[p - start]
            } else {
                old(buf)@[p]
            },
{
    let mut j: usize = 0;
    while j < data.len()
        invariant
            j <= data@.len(),
            start + data.len() <= buf.len(),
            buf@.len() == old(buf)@.len(),
            forall|p: int|
                0 <= p < buf@.len() ==> #[trigger] buf@[p] == if start <= p < start + j {
                    data@[p - start]
                } else {
                    old(buf)@[p]
                },
        decreases data@.len() - j,
    {
        buf.set(start + j, data[j]);
        j += 1;
    }
}

/// Writes row `i` of `rows` into `buf` at offset `i * stride`.
pub fn pack_rows(buf: &mut Vec<u8>, rows: &[&[u8]], stride: usize, count: usize)
    requires
        old(buf)@.len() == stride * count,
        rows@.len() <= count,
        forall|i: int| 0 <= i < rows@.len() ==> (#[trigger] rows@[i])@.len() <= stride,
    ensures
        final(buf)@ == packed_rows(old(buf)@, rows@.map_values(|r: &[u8]| r@), stride as nat),
{
    let ghost base = buf@;
    let ghost rs = rows@.map_values(|r: &[u8]| r@);
    let mut k: usize = 0;
    while k < rows.len()
        invariant
            k <= rows@.len(),
            rows@.len() <= count,
            base.len() == stride * count,
            buf@.len() == base.len(),
            rs == rows@.map_values(|r: &[u8]| r@),
            forall|i: int| 0 <= i < rows@.len() ==> (#[trigger] rows@[i])@.len() <= stride,
            forall|i: int, j: int|
                0 <= i < k && 0 <= j < stride ==> #[trigger] buf@[i * stride + j] == if j < rs[i].len() {
                    rs[i][j]
                } else {
                    base[i * stride + j]
                },
            forall|p: int| k * stride <= p < base.len() ==> #[trigger] buf@[p] == base[p],
        decreases rows@.len() - k,
    {
        let row = rows[k];
        proof {
            lemma_slot_order(k as int + 1, count as int, stride as int);
            assert((k + 1) * stride == k * stride + stride) by (nonlinear_arith);
            assert(rs[k as int] == row@);
            assert(buf@.len() == buf.len());
        }
        let start = k * stride;
        let ghost prev = buf@;
        copy_into(buf, start, row);
        proof {
            assert forall|i: int, j: int|
                0 <= i < k + 1 && 0 <= j < stride implies #[trigger] buf@[i * stride + j] == if j < rs[i].len() {
                    rs[i][j]
                } else {
                    base[i * stride + j]
                } by {
                lemma_slot_position(i, j, stride as int);
                if i < k {
                    lemma_slot_order(i + 1, k as int, stride as int);
                }
                lemma_slot_order(i, k as int, stride as int);
                lemma_slot_order(k as int + 1, count as int, stride as int);
                assert((k + 1) * stride == k * stride + stride) by (nonlinear_arith);
                if i < k {
                    assert(prev[i * stride + j] == buf@[i * stride + j]);
                } else {
                    assert(i == k);
                }
            }
            assert forall|p: int| (k + 1) * stride <= p < base.len() implies #[trigger] buf@[p] == base[p] by {
                assert((k + 1) * stride == k * stride + stride) by (nonlinear_arith);
                assert(prev[p] == base[p]);
            }
        }
        k += 1;
    }
    proof {
        let target = packed_rows(base, rs, stride as nat);
        assert forall|p: int| 0 <= p < base.len() implies #[trigger] buf@[p] == target[p] by {
            let s = stride as int;
            if s > 0 {
                lemma_fundamental_div_mod(p, s);
                let i = p / s;
                let j = p % s;
                assert(0 <= j < s) by {
                    vstd::arithmetic::div_mod::lemma_mod_bound(p, s);
                }
                assert(i >= 0) by {
                    vstd::arithmetic::div_mod::lemma_div_pos_is_pos(p, s);
                }
                assert(p == i * s + j) by {
                    vstd::arithmetic::mul::lemma_mul_is_commutative(i, s);
                }
                lemma_slot_position(i, j, s);
                if i < rows@.len() {
                    assert(buf@[i * stride + j] == buf@[p]);
                } else {
                    lemma_slot_order(rows@.len() as int, i, s);
                }
            } else {
                assert(base.len() == 0) by (nonlinear_arith)
                    requires
                        base.len() == stride * count,
                        stride == 0,
                ;
            }
        }
        assert(buf@ =~= target);
    }
}

} // verus!
