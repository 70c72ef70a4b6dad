//! Element loops behind the predictors: horizontal differencing, byte-group reversal and
//! byte-plane gathering, for each element width.
use vstd::prelude::*;

use crate::endian::{read_u16, read_u32, read_u64, write_u16, write_u32, write_u64, Endianness};
use crate::predictor::{elem_at, elems, groups_reversed, hp_at, modulus, plane, rev_hdiff, unshuffled};

verus! {

proof fn lemma_hp_step(e: Seq<int>, j: int, st: int, m: int)
    requires
        0 < st <= j,
    ensures
        hp_at(e, j, st, m) == (e[j] + hp_at(e, j - st, st, m)) % m,
{
}

/// Reverts horizontal differencing on 8-bit elements stored in byte order `host`.
#[verifier::rlimit(60)]
pub(crate) fn rev_hpredict_w1(buf: &mut [u8], samples: usize, host: Endianness)
    requires
        samples >= 1,
        old(buf)@.len() % 1 == 0,
    ensures
        final(buf)@.len() == old(buf)@.len(),
        elems(final(buf)@, 1, host) == rev_hdiff(elems(old(buf)@, 1, host), samples as int, modulus(1)),
{
    let ghost e = elems(buf@, 1, host);
    let len = buf.len();
    let n = len / 1;
    if samples >= n {
        proof {
            assert(rev_hdiff(e, samples as int, modulus(1)) =~= e);
        }
        return;
    }
    let back = samples * 1;
    let mut k: usize = samples;
    while k < n
        invariant
            1 <= samples <= k <= n,
            n == len / 1,
            len == buf@.len(),
            back == samples * 1,
            e.len() == n,
            forall|j: int| 0 <= j < k ==> #[trigger] elem_at(buf@, j * 1, 1, host) == hp_at(e, j, samples as int, modulus(1)),
            forall|j: int| k <= j < n ==> #[trigger] elem_at(buf@, j * 1, 1, host) == e[j],
        decreases n - k,
    {
        let p = k * 1;
        assert(elem_at(buf@, (k as int) * 1, 1, host) == e[k as int]);
        let a = buf[p];
        proof {
            assert(elem_at(buf@, (k - samples) * 1, 1, host) == hp_at(e, k - samples, samples as int, modulus(1)));
            assert((k - samples) * 1 == p - back);
        }
        let b = buf[p - back];
        let v = a.wrapping_add(b);
        proof {
            assert(a as int == e[k as int]);
            assert(b as int == hp_at(e, k - samples, samples as int, modulus(1)));
            assert(v as int == (a as int + b as int) % modulus(1));
            lemma_hp_step(e, k as int, samples as int, modulus(1));
        }
        let ghost before = buf@;
        buf[p] = v;
        proof {
            assert forall|j: int| 0 <= j < n && j != k implies #[trigger] elem_at(buf@, j * 1, 1, host) == elem_at(before, j * 1, 1, host) by {
                assert(j * 1 + 1 <= p || j * 1 >= p + 1);
            }
            assert(elem_at(buf@, k * 1, 1, host) == hp_at(e, k as int, samples as int, modulus(1)));
        }
        k += 1;
    }
    proof {
        assert(elems(buf@, 1, host) =~= rev_hdiff(e, samples as int, modulus(1)));
    }
}

/// Reverts horizontal differencing on 16-bit elements stored in byte order `host`.
#[verifier::rlimit(60)]
pub(crate) fn rev_hpredict_w2(buf: &mut [u8], samples: usize, host: Endianness)
    requires
        samples >= 1,
        old(buf)@.len() % 2 == 0,
    ensures
        final(buf)@.len() == old(buf)@.len(),
        elems(final(buf)@, 2, host) == rev_hdiff(elems(old(buf)@, 2, host), samples as int, modulus(2)),
{
    let ghost e = elems(buf@, 2, host);
    let len = buf.len();
    let n = len / 2;
    if samples >= n {
        proof {
            assert(rev_hdiff(e, samples as int, modulus(2)) =~= e);
        }
        return;
    }
    let back = samples * 2;
    let mut k: usize = samples;
    while k < n
        invariant
            1 <= samples <= k <= n,
            n == len / 2,
            len == buf@.len(),
            back == samples * 2,
            e.len() == n,
            forall|j: int| 0 <= j < k ==> #[trigger] elem_at(buf@, j * 2, 2, host) == hp_at(e, j, samples as int, modulus(2)),
            forall|j: int| k <= j < n ==> #[trigger] elem_at(buf@, j * 2, 2, host) == e[j],
        decreases n - k,
    {
        let p = k * 2;
        assert(elem_at(buf@, (k as int) * 2, 2, host) == e[k as int]);
        let a = read_u16(buf, p, host);
        proof {
            assert(elem_at(buf@, (k - samples) * 2, 2, host) == hp_at(e, k - samples, samples as int, modulus(2)));
            assert((k - samples) * 2 == p - back);
        }
        let b = read_u16(buf, p - back, host);
        let v = a.wrapping_add(b);
        proof {
            assert(a as int == e[k as int]);
            assert(b as int == hp_at(e, k - samples, samples as int, modulus(2)));
            assert(v as int == (a as int + b as int) % modulus(2));
            lemma_hp_step(e, k as int, samples as int, modulus(2));
        }
        let ghost before = buf@;
        write_u16(buf, p, v, host);
        proof {
            assert forall|j: int| 0 <= j < n && j != k implies #[trigger] elem_at(buf@, j * 2, 2, host) == elem_at(before, j * 2, 2, host) by {
                assert(j * 2 + 2 <= p || j * 2 >= p + 2);
            }
            assert(elem_at(buf@, k * 2, 2, host) == hp_at(e, k as int, samples as int, modulus(2)));
        }
        k += 1;
    }
    proof {
        assert(elems(buf@, 2, host) =~= rev_hdiff(e, samples as int, modulus(2)));
    }
}

/// Reverts horizontal differencing on 32-bit elements stored in byte order `host`.
#[verifier::rlimit(60)]
pub(crate) fn rev_hpredict_w4(buf: &mut [u8], samples: usize, host: Endianness)
    requires
        samples >= 1,
        old(buf)@.len() % 4 == 0,
    ensures
        final(buf)@.len() == old(buf)@.len(),
        elems(final(buf)@, 4, host) == rev_hdiff(elems(old(buf)@, 4, host), samples as int, modulus(4)),
{
    let ghost e = elems(buf@, 4, host);
    let len = buf.len();
    let n = len / 4;
    if samples >= n {
        proof {
            assert(rev_hdiff(e, samples as int, modulus(4)) =~= e);
        }
        return;
    }
    let back = samples * 4;
    let mut k: usize = samples;
    while k < n
        invariant
            1 <= samples <= k <= n,
            n == len / 4,
            len == buf@.len(),
            back == samples * 4,
            e.len() == n,
            forall|j: int| 0 <= j < k ==> #[trigger] elem_at(buf@, j * 4, 4, host) == hp_at(e, j, samples as int, modulus(4)),
            forall|j: int| k <= j < n ==> #[trigger] elem_at(buf@, j * 4, 4, host) == e[j],
        decreases n - k,
    {
        let p = k * 4;
        assert(elem_at(buf@, (k as int) * 4, 4, host) == e[k as int]);
        let a = read_u32(buf, p, host);
        proof {
            assert(elem_at(buf@, (k - samples) * 4, 4, host) == hp_at(e, k - samples, samples as int, modulus(4)));
            assert((k - samples) * 4 == p - back);
        }
        let b = read_u32(buf, p - back, host);
        let v = a.wrapping_add(b);
        proof {
            assert(a as int == e[k as int]);
            assert(b as int == hp_at(e, k - samples, samples as int, modulus(4)));
            assert(v as int == (a as int + b as int) % modulus(4));
            lemma_hp_step(e, k as int, samples as int, modulus(4));
        }
        let ghost before = buf@;
        write_u32(buf, p, v, host);
        proof {
            assert forall|j: int| 0 <= j < n && j != k implies #[trigger] elem_at(buf@, j * 4, 4, host) == elem_at(before, j * 4, 4, host) by {
                assert(j * 4 + 4 <= p || j * 4 >= p + 4);
            }
            assert(elem_at(buf@, k * 4, 4, host) == hp_at(e, k as int, samples as int, modulus(4)));
        }
        k += 1;
    }
    proof {
        assert(elems(buf@, 4, host) =~= rev_hdiff(e, samples as int, modulus(4)));
    }
}

/// Reverts horizontal differencing on 64-bit elements stored in byte order `host`.
#[verifier::rlimit(100)]
pub(crate) fn rev_hpredict_w8(buf: &mut [u8], samples: usize, host: Endianness)
    requires
        samples >= 1,
        old(buf)@.len() % 8 == 0,
    ensures
        final(buf)@.len() == old(buf)@.len(),
        elems(final(buf)@, 8, host) == rev_hdiff(elems(old(buf)@, 8, host), samples as int, modulus(8)),
{
    let ghost e = elems(buf@, 8, host);
    let len = buf.len();
    let n = len / 8;
    if samples >= n {
        proof {
            assert(rev_hdiff(e, samples as int, modulus(8)) =~= e);
        }
        return;
    }
    let back = samples * 8;
    let mut k: usize = samples;
    while k < n
        invariant
            1 <= samples <= k <= n,
            n == len / 8,
            len == buf@.len(),
            back == samples * 8,
            e.len() == n,
            forall|j: int| 0 <= j < k ==> #[trigger] elem_at(buf@, j * 8, 8, host) == hp_at(e, j, samples as int, modulus(8)),
            forall|j: int| k <= j < n ==> #[trigger] elem_at(buf@, j * 8, 8, host) == e[j],
        decreases n - k,
    {
        let p = k * 8;
        assert(elem_at(buf@, (k as int) * 8, 8, host) == e[k as int]);
        let a = read_u64(buf, p, host);
        proof {
            assert(elem_at(buf@, (k - samples) * 8, 8, host) == hp_at(e, k - samples, samples as int, modulus(8)));
            assert((k - samples) * 8 == p - back);
        }
        let b = read_u64(buf, p - back, host);
        let v = a.wrapping_add(b);
        proof {
            assert(a as int == e[k as int]);
            assert(b as int == hp_at(e, k - samples, samples as int, modulus(8)));
            assert(v as int == (a as int + b as int) % modulus(8));
            lemma_hp_step(e, k as int, samples as int, modulus(8));
        }
        let ghost before = buf@;
        write_u64(buf, p, v, host);
        proof {
            assert forall|j: int| 0 <= j < n && j != k implies #[trigger] elem_at(buf@, j * 8, 8, host) == elem_at(before, j * 8, 8, host) by {
                assert(j * 8 + 8 <= p || j * 8 >= p + 8);
            }
            assert(elem_at(buf@, k * 8, 8, host) == hp_at(e, k as int, samples as int, modulus(8)));
        }
        k += 1;
    }
    proof {
        assert(elems(buf@, 8, host) =~= rev_hdiff(e, samples as int, modulus(8)));
    }
}

/// Reverses the bytes of each whole 2-byte group.
pub(crate) fn reverse_groups_w2(buf: &mut [u8])
    ensures
        groups_reversed(old(buf)@, final(buf)@, 2),
{
    let ghost orig = buf@;
    let len = buf.len();
    let n = len / 2;
    let mut g: usize = 0;
    while g < n
        invariant
            g <= n,
            n == len / 2,
            len == buf@.len(),
            orig.len() == len,
            forall|h: int, k: int| 0 <= h < g && 0 <= k < 2 ==> #[trigger] buf@[h * 2 + k] == orig[h * 2 + 1 - k],
            forall|p: int| g * 2 <= p < len ==> #[trigger] buf@[p] == orig[p],
        decreases n - g,
    {
        let p = g * 2;
        let t0 = buf[p + 0];
        let t1 = buf[p + 1];
        buf[p + 0] = t1;
        buf[p + 1] = t0;
        proof {
            assert forall|h: int, k: int| 0 <= h < g + 1 && 0 <= k < 2 implies #[trigger] buf@[h * 2 + k] == orig[h * 2 + 1 - k] by {
                if h == g {
                    assert(h * 2 + k == p + k);
                }
            }
        }
        g += 1;
    }
}

/// Reverses the bytes of each whole 4-byte group.
pub(crate) fn reverse_groups_w4(buf: &mut [u8])
    ensures
        groups_reversed(old(buf)@, final(buf)@, 4),
{
    let ghost orig = buf@;
    let len = buf.len();
    let n = len / 4;
    let mut g: usize = 0;
    while g < n
        invariant
            g <= n,
            n == len / 4,
            len == buf@.len(),
            orig.len() == len,
            forall|h: int, k: int| 0 <= h < g && 0 <= k < 4 ==> #[trigger] buf@[h * 4 + k] == orig[h * 4 + 3 - k],
            forall|p: int| g * 4 <= p < len ==> #[trigger] buf@[p] == orig[p],
        decreases n - g,
    {
        let p = g * 4;
        let t0 = buf[p + 0];
        let t3 = buf[p + 3];
        buf[p + 0] = t3;
        buf[p + 3] = t0;
        let t1 = buf[p + 1];
        let t2 = buf[p + 2];
        buf[p + 1] = t2;
        buf[p + 2] = t1;
        proof {
            assert forall|h: int, k: int| 0 <= h < g + 1 && 0 <= k < 4 implies #[trigger] buf@[h * 4 + k] == orig[h * 4 + 3 - k] by {
                if h == g {
                    assert(h * 4 + k == p + k);
                }
            }
        }
        g += 1;
    }
}

/// Reverses the bytes of each whole 8-byte group.
pub(crate) fn reverse_groups_w8(buf: &mut [u8])
    ensures
        groups_reversed(old(buf)@, final(buf)@, 8),
{
    let ghost orig = buf@;
    let len = buf.len();
    let n = len / 8;
    let mut g: usize = 0;
    while g < n
        invariant
            g <= n,
            n == len / 8,
            len == buf@.len(),
            orig.len() == len,
            forall|h: int, k: int| 0 <= h < g && 0 <= k < 8 ==> #[trigger] buf@[h * 8 + k] == orig[h * 8 + 7 - k],
            forall|p: int| g * 8 <= p < len ==> #[trigger] buf@[p] == orig[p],
        decreases n - g,
    {
        let p = g * 8;
        let t0 = buf[p + 0];
        let t7 = buf[p + 7];
        buf[p + 0] = t7;
        buf[p + 7] = t0;
        let t1 = buf[p + 1];
        let t6 = buf[p + 6];
        buf[p + 1] = t6;
        buf[p + 6] = t1;
        let t2 = buf[p + 2];
        let t5 = buf[p + 5];
        buf[p + 2] = t5;
        buf[p + 5] = t2;
        let t3 = buf[p + 3];
        let t4 = buf[p + 4];
        buf[p + 3] = t4;
        buf[p + 4] = t3;
        proof {
            assert forall|h: int, k: int| 0 <= h < g + 1 && 0 <= k < 8 implies #[trigger] buf@[h * 8 + k] == orig[h * 8 + 7 - k] by {
                if h == g {
                    assert(h * 8 + k == p + k);
                }
            }
        }
        g += 1;
    }
}

/// Gathers each 2-byte value from the 2 byte planes of `input` and writes it in byte
/// order `host`.
pub(crate) fn unshuffle_w2(input: &[u8], output: &mut [u8], host: Endianness)
    requires
        old(output)@.len() / 2 <= input@.len() / 2,
    ensures
        unshuffled(input@, old(output)@, final(output)@, 2, host),
{
    let ghost orig = output@;
    let len = output.len();
    let n = len / 2;
    let q = input.len() / 2;
    let mut i: usize = 0;
    while i < n
        invariant
            i <= n,
            n == len / 2,
            n <= q,
            q == input@.len() / 2,
            len == output@.len(),
            orig.len() == len,
            forall|g: int, k: int| 0 <= g < i && 0 <= k < 2 ==> #[trigger] output@[g * 2 + k] == input@[plane(k, 2, host) * q + g],
            forall|p: int| i * 2 <= p < len ==> #[trigger] output@[p] == orig[p],
        decreases n - i,
    {
        let p = i * 2;
        proof {
            assert(1 * q + i < input@.len()) by (nonlinear_arith)
                requires i < q, q == input@.len() / 2;
        }
        let b0 = input[0 * q + i];
        let b1 = input[1 * q + i];
        if host == Endianness::LittleEndian {
            output[p + 0] = b1;
            output[p + 1] = b0;
        } else {
            output[p + 0] = b0;
            output[p + 1] = b1;
        }
        proof {
            assert forall|g: int, k: int| 0 <= g < i + 1 && 0 <= k < 2 implies #[trigger] output@[g * 2 + k] == input@[plane(k, 2, host) * q + g] by {
                if g == i {
                    assert(g * 2 + k == p + k);
                }
            }
        }
        i += 1;
    }
}

/// Gathers each 4-byte value from the 4 byte planes of `input` and writes it in byte
/// order `host`.
pub(crate) fn unshuffle_w4(input: &[u8], output: &mut [u8], host: Endianness)
    requires
        old(output)@.len() / 4 <= input@.len() / 4,
    ensures
        unshuffled(input@, old(output)@, final(output)@, 4, host),
{
    let ghost orig = output@;
    let len = output.len();
    let n = len / 4;
    let q = input.len() / 4;
    let mut i: usize = 0;
    while i < n
        invariant
            i <= n,
            n == len / 4,
            n <= q,
            q == input@.len() / 4,
            len == output@.len(),
            orig.len() == len,
            forall|g: int, k: int| 0 <= g < i && 0 <= k < 4 ==> #[trigger] output@[g * 4 + k] == input@[plane(k, 4, host) * q + g],
            forall|p: int| i * 4 <= p < len ==> #[trigger] output@[p] == orig[p],
        decreases n - i,
    {
        let p = i * 4;
        proof {
            assert(3 * q + i < input@.len()) by (nonlinear_arith)
                requires i < q, q == input@.len() / 4;
        }
        let b0 = input[0 * q + i];
        let b1 = input[1 * q + i];
        let b2 = input[2 * q + i];
        let b3 = input[3 * q + i];
        if host == Endianness::LittleEndian {
            output[p + 0] = b3;
            output[p + 1] = b2;
            output[p + 2] = b1;
            output[p + 3] = b0;
        } else {
            output[p + 0] = b0;
            output[p + 1] = b1;
            output[p + 2] = b2;
            output[p + 3] = b3;
        }
        proof {
            assert forall|g: int, k: int| 0 <= g < i + 1 && 0 <= k < 4 implies #[trigger] output@[g * 4 + k] == input@[plane(k, 4, host) * q + g] by {
                if g == i {
                    assert(g * 4 + k == p + k);
                }
            }
        }
        i += 1;
    }
}

/// Gathers each 8-byte value from the 8 byte planes of `input` and writes it in byte
/// order `host`.
pub(crate) fn unshuffle_w8(input: &[u8], output: &mut [u8], host: Endianness)
    requires
        old(output)@.len() / 8 <= input@.len() / 8,
    ensures
        unshuffled(input@, old(output)@, final(output)@, 8, host),
{
    let ghost orig = output@;
    let len = output.len();
    let n = len / 8;
    let q = input.len() / 8;
    let mut i: usize = 0;
    while i < n
        invariant
            i <= n,
            n == len / 8,
            n <= q,
            q == input@.len() / 8,
            len == output@.len(),
            orig.len() == len,
            forall|g: int, k: int| 0 <= g < i && 0 <= k < 8 ==> #[trigger] output@[g * 8 + k] == input@[plane(k, 8, host) * q + g],
            forall|p: int| i * 8 <= p < len ==> #[trigger] output@[p] == orig[p],
        decreases n - i,
    {
        let p = i * 8;
        proof {
            assert(7 * q + i < input@.len()) by (nonlinear_arith)
                requires i < q, q == input@.len() / 8;
        }
        let b0 = input[0 * q + i];
        let b1 = input[1 * q + i];
        let b2 = input[2 * q + i];
        let b3 = input[3 * q + i];
        let b4 = input[4 * q + i];
        let b5 = input[5 * q + i];
        let b6 = input[6 * q + i];
        let b7 = input[7 * q + i];
        if host == Endianness::LittleEndian {
            output[p + 0] = b7;
            output[p + 1] = b6;
            output[p + 2] = b5;
            output[p + 3] = b4;
            output[p + 4] = b3;
            output[p + 5] = b2;
            output[p + 6] = b1;
            output[p + 7] = b0;
        } else {
            output[p + 0] = b0;
            output[p + 1] = b1;
            output[p + 2] = b2;
            output[p + 3] = b3;
            output[p + 4] = b4;
            output[p + 5] = b5;
            output[p + 6] = b6;
            output[p + 7] = b7;
        }
        proof {
            assert forall|g: int, k: int| 0 <= g < i + 1 && 0 <= k < 8 implies #[trigger] output@[g * 8 + k] == input@[plane(k, 8, host) * q + g] by {
                if g == i {
                    assert(g * 8 + k == p + k);
                }
            }
        }
        i += 1;
    }
}

} // verus!
