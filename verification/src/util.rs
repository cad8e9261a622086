pub mod image;

use std::ops::Range;
use vstd::prelude::*;

verus! {

/// `a / b` rounded up.
pub open spec fn spec_div_ceil(a: int, b: int) -> int {
    a / b + if a % b != 0 {
        1int
    } else {
        0int
    }
}

/// Integer division rounding up.
pub fn div_ceil(a: usize, b: usize) -> (r: usize)
    requires
        b > 0,
    ensures
        r == spec_div_ceil(a as int, b as int),
        r * b >= a,
        r == 0 || (r - 1) * b < a,
{
    let q = a / b;
    let m = a % b;
    proof {
        vstd::arithmetic::div_mod::lemma_fundamental_div_mod(a as int, b as int);
        vstd::arithmetic::div_mod::lemma_mod_bound(a as int, b as int);
        vstd::arithmetic::mul::lemma_mul_inequality(1, b as int, q as int);
        vstd::arithmetic::mul::lemma_mul_is_commutative(b as int, q as int);
        vstd::arithmetic::mul::lemma_mul_is_distributive_add_other_way(b as int, q as int, 1);
        vstd::arithmetic::mul::lemma_mul_is_distributive_sub_other_way(b as int, q as int, 1);
        assert(a == b * q + m);
    }
    q + ((m != 0) as usize)
}

/// Shifts both ends of `range` by the signed `offset`.
pub fn move_range_i(range: &Range<usize>, offset: isize) -> (r: Range<usize>)
    requires
        0 <= range.start + offset <= usize::MAX,
        0 <= range.end + offset <= usize::MAX,
        isize::MIN <= range.start + offset <= isize::MAX,
        isize::MIN <= range.end + offset <= isize::MAX,
        range.start <= isize::MAX,
        range.end <= isize::MAX,
    ensures
        r.start == range.start + offset,
        r.end == range.end + offset,
{
    Range { start: (range.start as isize + offset) as usize, end: (range.end as isize + offset) as usize }
}

/// Shifts both ends of `range` by `offset`.
pub fn move_range(range: &Range<usize>, offset: usize) -> (r: Range<usize>)
    requires
        range.start + offset <= usize::MAX,
        range.end + offset <= usize::MAX,
    ensures
        r.start == range.start + offset,
        r.end == range.end + offset,
{
    Range { start: range.start + offset, end: range.end + offset }
}

/// Walks through neighbouring pairs from left to right: for each `k`, `f` is called with the
/// current values of items `k` and `k + 1` and the pair it returns replaces them.
///
/// The result is described by the values `carry[k]` that item `k` holds when it is the left
/// element of a pair: item `k` ends as what the call on pair `k` gave it, and the last item
/// ends as its carry.
pub fn process_pairs<T: Copy, F: Fn(T, T) -> (T, T)>(items: &mut [T], f: F)
    requires
        forall|a: T, b: T| #[trigger] f.requires((a, b)),
    ensures
        final(items)@.len() == old(items)@.len(),
        old(items)@.len() > 0 ==> exists|carry: Seq<T>|
            #![trigger carry.len()]
            {
                &&& carry.len() == old(items)@.len()
                &&& carry[0] == old(items)@[0]
                &&& final(items)@[final(items)@.len() - 1] == carry[carry.len() - 1]
                &&& forall|k: int|
                    0 <= k < carry.len() - 1 ==> #[trigger] f.ensures(
                        (carry[k], old(items)@[k + 1]),
                        (final(items)@[k], carry[k + 1]),
                    )
            },
{
    let n = items.len();
    if n == 0 {
        return ;
    }
    let ghost old_items = items@;
    let ghost mut carry: Seq<T> = seq![items[0]];
    let mut k: usize = 0;
    while k + 1 < n
        invariant
            n == old_items.len(),
            n == items@.len(),
            k < n,
            carry.len() == k + 1,
            carry[0] == old_items[0],
            items@[k as int] == carry[k as int],
            forall|i: int| k < i < n ==> #[trigger] items@[i] == old_items[i],
            forall|a: T, b: T| #[trigger] f.requires((a, b)),
            forall|i: int|
                0 <= i < k ==> #[trigger] f.ensures(
                    (carry[i], old_items[i + 1]),
                    (items@[i], carry[i + 1]),
                ),
        decreases n - k,
    {
        let a = items[k];
        let b = items[k + 1];
        let (a2, b2) = f(a, b);
        items[k] = a2;
        items[k + 1] = b2;
        proof {
            carry = carry.push(b2);
        }
        k = k + 1;
    }
    assert(carry.len() == old_items.len());
}

/// The arrays of `s`, one after the other, as one vector.
pub fn vec_into_flattened<T: Copy, const N: usize>(s: Vec<[T; N]>) -> (r: Vec<T>)
    ensures
        r@ == s@.map_values(|a: [T; N]| a@).flatten(),
{
    let ghost f = |a: [T; N]| a@;
    let mut r: Vec<T> = Vec::new();
    let mut i: usize = 0;
    proof {
        assert(s@.take(0).map_values(f) =~= Seq::<Seq<T>>::empty());
    }
    while i < s.len()
        invariant
            i <= s@.len(),
            f == (|a: [T; N]| a@),
            r@ == s@.take(i as int).map_values(f).flatten(),
        decreases s@.len() - i,
    {
        let a = s[i];
        let ghost before = r@;
        let mut j: usize = 0;
        while j < N
            invariant
                j <= N,
                a@.len() == N,
                r@ == before + a@.take(j as int),
            decreases N - j,
        {
            r.push(a[j]);
            proof {
                assert(a@.take(j + 1) =~= a@.take(j as int).push(a@[j as int]));
                assert(before + a@.take(j + 1) =~= (before + a@.take(j as int)).push(a@[j as int]));
            }
            j = j + 1;
        }
        proof {
            assert(a@.take(N as int) =~= a@);
            assert(s@.take(i + 1).map_values(f) =~= s@.take(i as int).map_values(f).push(a@));
            s@.take(i as int).map_values(f).lemma_flatten_push(a@);
        }
        i = i + 1;
    }
    proof {
        assert(s@.take(s@.len() as int) =~= s@);
    }
    r
}

/// Splits `s` into chunks of `N` values, and the values after the last whole chunk.
pub fn slice_as_chunks<T: Copy, const N: usize>(s: &[T]) -> (r: (Vec<[T; N]>, Vec<T>))
    requires
        N > 0,
    ensures
        r.0@.len() == (s@.len() as int) / (N as int),
        forall|i: int, j: int|
            0 <= i < r.0@.len() && 0 <= j < N ==> #[trigger] r.0@[i]@[j] == s@[i * N + j],
        r.1@ == s@.subrange(((s@.len() as int) / (N as int)) * N, s@.len() as int),
{
    let len = s.len();
    let count = len / N;
    let mut chunks: Vec<[T; N]> = Vec::new();
    let mut i: usize = 0;
    while i < count
        invariant
            N > 0,
            len == s@.len(),
            count == (s@.len() as int) / (N as int),
            i <= count,
            chunks@.len() == i,
            forall|k: int, j: int|
                0 <= k < i && 0 <= j < N ==> #[trigger] chunks@[k]@[j] == s@[k * N + j],
        decreases count - i,
    {
        proof {
            assert((i + 1) * N <= count * N) by (nonlinear_arith)
                requires
                    i < count,
            ;
            vstd::arithmetic::div_mod::lemma_fundamental_div_mod(s@.len() as int, N as int);
            assert(count * N <= s@.len()) by (nonlinear_arith)
                requires
                    count == (s@.len() as int) / (N as int),
                    s@.len() as int == (N as int) * ((s@.len() as int) / (N as int)) + (s@.len() as int) % (N as int),
                    (s@.len() as int) % (N as int) >= 0,
            ;
            assert((i + 1) * N == i * N + N) by (nonlinear_arith);
            assert(i * N + N <= s@.len());
        }
        let base = i * N;
        let mut a: [T; N] = [s[base]; N];
        let mut j: usize = 0;
        while j < N
            invariant
                N > 0,
                len == s@.len(),
                base == i * N,
                base + N <= s@.len(),
                j <= N,
                a@.len() == N,
                forall|q: int| 0 <= q < j ==> #[trigger] a@[q] == s@[base + q],
            decreases N - j,
        {
            a.set(j, s[base + j]);
            j = j + 1;
        }
        chunks.push(a);
        proof {
            assert forall|k: int, j: int| 0 <= k < i + 1 && 0 <= j < N implies #[trigger] chunks@[k]@[j]
                == s@[k * N + j] by {
                if k == i {
                    assert(k * N == base);
                }
            }
        }
        i = i + 1;
    }
    proof {
        vstd::arithmetic::div_mod::lemma_fundamental_div_mod(s@.len() as int, N as int);
        assert(count * N <= s@.len()) by (nonlinear_arith)
            requires
                count == (s@.len() as int) / (N as int),
                s@.len() as int == (N as int) * ((s@.len() as int) / (N as int)) + (s@.len() as int) % (N as int),
                (s@.len() as int) % (N as int) >= 0,
        ;
    }
    let start = count * N;
    let mut rest: Vec<T> = Vec::new();
    let mut k: usize = start;
    while k < s.len()
        invariant
            start <= k <= s@.len(),
            rest@ == s@.subrange(start as int, k as int),
        decreases s@.len() - k,
    {
        rest.push(s[k]);
        proof {
            assert(s@.subrange(start as int, k + 1) =~= s@.subrange(start as int, k as int).push(s@[k as int]));
        }
        k = k + 1;
    }
    (chunks, rest)
}

} // verus!
