use vstd::prelude::*;

use crate::util::{div_ceil, spec_div_ceil};

verus! {

/// Whether bit `k` (counted from the least significant bit) of `w` is set.
pub open spec fn word_bit(w: u64, k: u64) -> bool {
    (w >> k) & 1u64 == 1u64
}

proof fn lemma_bit_or_shifted(v: u64, b: u64, j: u64, t: u64)
    requires
        j < 64,
        t < 64,
        b <= 1,
    ensures
        word_bit(v | (b << j), t) == if t == j {
            word_bit(v, t) || b == 1
        } else {
            word_bit(v, t)
        },
{
    assert(word_bit(v | (b << j), t) == if t == j {
        word_bit(v, t) || b == 1
    } else {
        word_bit(v, t)
    }) by (bit_vector)
        requires
            j < 64,
            t < 64,
            b <= 1,
    ;
}

proof fn lemma_bit_spread(v: u64, t: u64)
    requires
        t < 64,
    ensures
        word_bit(v | (v >> 1u64) | (v << 1u64), t) == (word_bit(v, t) || (t > 0 && word_bit(
            v,
            (t - 1) as u64,
        )) || (t < 63 && word_bit(v, (t + 1) as u64))),
{
    assert(word_bit(v | (v >> 1u64) | (v << 1u64), t) == (word_bit(v, t) || (t > 0 && word_bit(
        v,
        (t - 1) as u64,
    )) || (t < 63 && word_bit(v, (t + 1) as u64)))) by (bit_vector)
        requires
            t < 64,
    ;
}


proof fn lemma_bit_mask(v: u64, j: u64, t: u64)
    requires
        j < 64,
        t < 64,
    ensures
        word_bit(v | (1u64 << j), t) == (t == j || word_bit(v, t)),
        word_bit(v & !(1u64 << j), t) == (t != j && word_bit(v, t)),
        ((v & (1u64 << j)) != 0u64) == word_bit(v, j),
{
    assert(word_bit(v | (1u64 << j), t) == (t == j || word_bit(v, t))) by (bit_vector)
        requires
            j < 64,
            t < 64,
    ;
    assert(word_bit(v & !(1u64 << j), t) == (t != j && word_bit(v, t))) by (bit_vector)
        requires
            j < 64,
            t < 64,
    ;
    assert(((v & (1u64 << j)) != 0u64) == word_bit(v, j)) by (bit_vector)
        requires
            j < 64,
    ;
}

proof fn lemma_bit_and_or(a: u64, b: u64, t: u64)
    requires
        t < 64,
    ensures
        word_bit(a & b, t) == (word_bit(a, t) && word_bit(b, t)),
        word_bit(a | b, t) == (word_bit(a, t) || word_bit(b, t)),
{
    assert(word_bit(a & b, t) == (word_bit(a, t) && word_bit(b, t))) by (bit_vector)
        requires
            t < 64,
    ;
    assert(word_bit(a | b, t) == (word_bit(a, t) || word_bit(b, t))) by (bit_vector)
        requires
            t < 64,
    ;
}

proof fn lemma_bit_const(t: u64)
    requires
        t < 64,
    ensures
        word_bit(u64::MAX, t),
        !word_bit(0u64, t),
{
    assert(word_bit(u64::MAX, t)) by (bit_vector)
        requires
            t < 64,
    ;
    assert(!word_bit(0u64, t)) by (bit_vector)
        requires
            t < 64,
    ;
}

proof fn lemma_bit_low_mask(v: u64, n: u64, t: u64)
    requires
        0 < n < 64,
        t < 64,
    ensures
        word_bit(v & ((1u64 << n) - 1u64) as u64, t) == (t < n && word_bit(v, t)),
{
    assert(word_bit(v & ((1u64 << n) - 1u64) as u64, t) == (t < n && word_bit(v, t))) by (bit_vector)
        requires
            0 < n < 64,
            t < 64,
    ;
}

proof fn lemma_bit_carry(a: u64, b: u64, t: u64)
    requires
        t < 64,
    ensures
        word_bit(a | (b << 63u64), t) == (word_bit(a, t) || (t == 63 && word_bit(b, 0))),
        word_bit(b | (a >> 63u64), t) == (word_bit(b, t) || (t == 0 && word_bit(a, 63))),
{
    assert(word_bit(a | (b << 63u64), t) == (word_bit(a, t) || (t == 63 && word_bit(b, 0))))
        by (bit_vector)
        requires
            t < 64,
    ;
    assert(word_bit(b | (a >> 63u64), t) == (word_bit(b, t) || (t == 0 && word_bit(a, 63))))
        by (bit_vector)
        requires
            t < 64,
    ;
}

/// Bit `j` of the bit string stored in `words`, where word `k` holds bits `64 * k` to
/// `64 * k + 63`; positions outside the storage read as unset.
pub open spec fn seq_bit(words: Seq<u64>, j: int) -> bool {
    0 <= j < words.len() * 64 && word_bit(words[j / 64], (j % 64) as u64)
}

/// Bit `j` after one step of `FixedBits::expand_one`, before the tail is cleared: each set bit
/// spreads to both neighbours, and across a word boundary it reaches one position further.
pub open spec fn expanded_bit(words: Seq<u64>, j: int) -> bool {
    ||| seq_bit(words, j)
    ||| seq_bit(words, j - 1)
    ||| seq_bit(words, j + 1)
    ||| (j % 64 == 63 && seq_bit(words, j + 2))
    ||| (j % 64 == 0 && seq_bit(words, j - 2))
}


/// One word spread by one bit in both directions, within the word.
pub open spec fn spread_word(w: u64) -> u64 {
    w | (w >> 1u64) | (w << 1u64)
}

/// Bit `j` of the storage while `expand_one` walks over the word boundaries, for a word whose
/// carry from the next word has not yet arrived.
spec fn expand_pending_bit(words: Seq<u64>, j: int) -> bool {
    ||| seq_bit(words, j)
    ||| seq_bit(words, j - 1)
    ||| (j % 64 != 63 && seq_bit(words, j + 1))
    ||| (j % 64 == 0 && seq_bit(words, j - 2))
}

proof fn lemma_seq_bit_word(words: Seq<u64>, k: int, t: int)
    requires
        0 <= k < words.len(),
        0 <= t < 64,
    ensures
        seq_bit(words, 64 * k + t) == word_bit(words[k], t as u64),
{
    assert((64 * k + t) / 64 == k);
    assert((64 * k + t) % 64 == t);
}

proof fn lemma_spread_word_bits(words: Seq<u64>, k: int, t: int)
    requires
        0 <= k < words.len(),
        0 <= t < 64,
    ensures
        word_bit(spread_word(words[k]), t as u64) == (seq_bit(words, 64 * k + t) || (t > 0
            && seq_bit(words, 64 * k + t - 1)) || (t < 63 && seq_bit(words, 64 * k + t + 1))),
{
    lemma_bit_spread(words[k], t as u64);
    lemma_seq_bit_word(words, k, t);
    if t > 0 {
        lemma_seq_bit_word(words, k, t - 1);
    }
    if t < 63 {
        lemma_seq_bit_word(words, k, t + 1);
    }
}

const USIZE_BYTES: usize = 8;

const USIZE_BITS: usize = 64;

/// A bit string of fixed length, stored in 64-bit words.
#[derive(Debug, PartialEq)]
pub struct FixedBits {
    data: Vec<u64>,
    bits: usize,
}

impl FixedBits {
    /// The storage words.
    pub closed spec fn words(&self) -> Seq<u64> {
        self.data@
    }

    /// The number of bits.
    pub closed spec fn spec_len(&self) -> nat {
        self.bits as nat
    }

    /// The storage holds at least `len` bits.
    pub open spec fn wf(&self) -> bool {
        self.spec_len() <= self.words().len() * 64
    }

    /// Bit `j` of the storage (which may lie beyond `len`).
    pub open spec fn raw_bit(&self, j: int) -> bool {
        seq_bit(self.words(), j)
    }

    /// Whether storage bit `j` lies in the last word beyond `len`: the bits that clearing the
    /// tail resets.
    pub open spec fn in_cleared_tail(&self, j: int) -> bool {
        &&& self.spec_len() % 64 != 0
        &&& self.words().len() > 0
        &&& j / 64 == self.words().len() - 1
        &&& j % 64 >= self.spec_len() % 64
    }

    /// The first `len` bits.
    pub open spec fn view_bits(&self) -> Seq<bool> {
        Seq::new(self.spec_len(), |j: int| self.raw_bit(j))
    }

    /// A bit string of `bits` unset bits.
    pub fn new(bits: usize) -> (r: Self)
        ensures
            r.wf(),
            r.spec_len() == bits,
            r.words().len() == spec_div_ceil(bits as int, 8),
            forall|k: int| 0 <= k < r.words().len() ==> #[trigger] r.words()[k] == 0,
            forall|j: int| !#[trigger] r.raw_bit(j),
    {
        let n = div_ceil(bits, USIZE_BYTES);
        let r = Self { data: vec![0u64; n], bits };
        assert forall|j: int| !#[trigger] r.raw_bit(j) by {
            if 0 <= j < r.words().len() * 64 {
                lemma_bit_const((j % 64) as u64);
            }
        }
        r
    }

    /// A bit string with one bit per item of `slice`, bit `i` being `f(&slice[i])`.
    pub fn from_slice<T, F: Fn(&T) -> bool>(slice: &[T], f: F) -> (r: Self)
        requires
            forall|i: int| 0 <= i < slice@.len() ==> #[trigger] f.requires((&slice@[i],)),
        ensures
            r.wf(),
            r.spec_len() == slice@.len(),
            r.words().len() == spec_div_ceil(slice@.len() as int, 8),
            forall|j: int| 0 <= j < slice@.len() ==> f.ensures((&slice@[j],), #[trigger] r.raw_bit(j)),
            forall|j: int| j >= slice@.len() ==> !#[trigger] r.raw_bit(j),
    {
        let len = slice.len();
        let mut bits = Self::new(len);
        let chunks = div_ceil(len, USIZE_BITS);
        proof {
            assert(chunks <= bits.words().len()) by {
                vstd::arithmetic::div_mod::lemma_fundamental_div_mod(len as int, 64);
                vstd::arithmetic::div_mod::lemma_fundamental_div_mod(len as int, 8);
            }
        }
        let mut k: usize = 0;
        while k < chunks
            invariant
                len == slice@.len(),
                chunks == spec_div_ceil(len as int, 64),
                chunks <= bits.words().len(),
                bits.wf(),
                bits.spec_len() == len,
                bits.words().len() == spec_div_ceil(len as int, 8),
                k <= chunks,
                forall|i: int| 0 <= i < slice@.len() ==> #[trigger] f.requires((&slice@[i],)),
                forall|j: int| 0 <= j < 64 * k && j < len ==> f.ensures((&slice@[j],), #[trigger] bits.raw_bit(j)),
                forall|j: int| 0 <= j < 64 * k && j >= len ==> !#[trigger] bits.raw_bit(j),
                forall|i: int| k <= i < bits.words().len() ==> #[trigger] bits.words()[i] == 0,
            decreases chunks - k,
        {
            let start = k * USIZE_BITS;
            let end = if len - start < USIZE_BITS { len } else { start + USIZE_BITS };
            let mut v: u64 = 0;
            let mut t: usize = 0;
            proof {
                assert forall|tt: u64| tt < 64 implies !word_bit(v, tt) by {
                    lemma_bit_const(tt);
                }
            }
            while start + t < end
                invariant
                    len == slice@.len(),
                    start == 64 * k,
                    start < len,
                    end <= len,
                    end <= start + 64,
                    start + t <= end,
                    forall|i: int| 0 <= i < slice@.len() ==> #[trigger] f.requires((&slice@[i],)),
                    forall|tt: u64| tt < t ==> f.ensures((&slice@[start + tt],), #[trigger] word_bit(v, tt)),
                    forall|tt: u64| t <= tt < 64 ==> !#[trigger] word_bit(v, tt),
                decreases end - start - t,
            {
                let b = f(&slice[start + t]);
                let ghost v0 = v;
                v = v | ((b as u64) << (t as u64));
                proof {
                    assert forall|tt: u64| tt < 64 implies #[trigger] word_bit(v, tt) == if tt == t as u64 {
                        b
                    } else {
                        word_bit(v0, tt)
                    } by {
                        lemma_bit_or_shifted(v0, b as u64, t as u64, tt);
                    }
                }
                t = t + 1;
            }
            let ghost before = bits.words();
            let ghost old_bits = bits;
            bits.data.set(k, v);
            proof {
                let cur = bits.words();
                assert forall|j: int| 64 * k <= j < 64 * k + 64 implies #[trigger] seq_bit(cur, j)
                    == word_bit(v, (j - 64 * k) as u64) by {
                    lemma_seq_bit_word(cur, k as int, j - 64 * k);
                }
                assert forall|j: int| 0 <= j < 64 * k implies #[trigger] seq_bit(cur, j)
                    == seq_bit(before, j) by {
                    assert(j / 64 < k);
                }
                assert forall|j: int| 0 <= j < 64 * k implies #[trigger] bits.raw_bit(j)
                    == old_bits.raw_bit(j) by {
                    assert(j / 64 < k);
                }
                assert forall|j: int| 64 * k <= j < 64 * k + 64 && j < len implies f.ensures(
                    (&slice@[j],),
                    #[trigger] bits.raw_bit(j),
                ) by {
                    let tt = (j - 64 * k) as u64;
                    assert(word_bit(v, tt) == seq_bit(cur, j));
                    assert(start + tt == j);
                }
                assert forall|j: int| 64 * k <= j < 64 * k + 64 && j >= len implies !#[trigger] bits.raw_bit(j) by {
                    let tt = (j - 64 * k) as u64;
                    assert(word_bit(v, tt) == seq_bit(cur, j));
                }
            }
            k = k + 1;
        }
        proof {
            assert forall|j: int| j >= len implies !#[trigger] bits.raw_bit(j) by {
                if j < 64 * chunks {
                } else if 0 <= j < bits.words().len() * 64 {
                    lemma_bit_const((j % 64) as u64);
                    assert(j / 64 >= chunks);
                }
            }
        }
        bits
    }

    /// A bit string of the bits `bits`, in order.
    pub fn from_iter(bits: &[bool]) -> (r: Self)
        ensures
            r.wf(),
            r.view_bits() == bits@,
            forall|j: int| j >= bits@.len() ==> !#[trigger] r.raw_bit(j),
    {
        let r = Self::from_slice(bits, |b: &bool| -> (c: bool)
            ensures
                c == *b,
            { *b });
        assert(r.view_bits() =~= bits@);
        r
    }

    pub fn len(&self) -> (r: usize)
        ensures
            r == self.spec_len(),
    {
        self.bits
    }

    pub fn is_empty(&self) -> (r: bool)
        ensures
            r == (self.spec_len() == 0),
    {
        self.bits == 0
    }

    /// Clears the storage bits of the last word that lie beyond `len`.
    fn fix_tail(&mut self)
        requires
            old(self).wf(),
        ensures
            final(self).wf(),
            final(self).spec_len() == old(self).spec_len(),
            final(self).words().len() == old(self).words().len(),
            forall|j: int|
                #[trigger] final(self).raw_bit(j) == (old(self).raw_bit(j) && !old(
                    self,
                ).in_cleared_tail(j)),
    {
        let tail_len = self.bits % USIZE_BITS;
        if tail_len > 0 {
            assert(1u64 << (tail_len as u64) >= 1u64) by (bit_vector)
                requires
                    0 < tail_len < 64,
            ;
            let mask: u64 = (1u64 << (tail_len as u64)) - 1;
            let last = self.data.len() - 1;
            let w = self.data[last];
            self.data.set(last, w & mask);
            assert forall|j: int|
                #[trigger] self.raw_bit(j) == (old(self).raw_bit(j) && !old(self).in_cleared_tail(
                    j,
                )) by {
                if 0 <= j < self.words().len() * 64 && j / 64 == last {
                    assert(mask == ((1u64 << (tail_len as u64)) - 1u64) as u64) by (bit_vector)
                        requires
                            0 < tail_len < 64,
                            mask == (1u64 << (tail_len as u64)) - 1,
                    ;
                    lemma_bit_low_mask(w, tail_len as u64, (j % 64) as u64);
                }
            }
        }
    }

    /// The bit at `index`, or `None` where `index` is not below `len`.
    pub fn get(&self, index: usize) -> (r: Option<bool>)
        requires
            self.wf(),
        ensures
            r == (if index < self.spec_len() {
                Some(self.raw_bit(index as int))
            } else {
                None
            }),
    {
        if index < self.len() {
            let part = self.data[index / USIZE_BITS];
            let mask: u64 = 1u64 << ((index % USIZE_BITS) as u64);
            proof {
                lemma_bit_mask(part, (index % USIZE_BITS) as u64, 0);
            }
            Some((part & mask) != 0)
        } else {
            None
        }
    }

    /// Sets the bit at `index` to `value`.
    pub fn set(&mut self, index: usize, value: bool)
        requires
            old(self).wf(),
            index < old(self).spec_len(),
        ensures
            final(self).wf(),
            final(self).spec_len() == old(self).spec_len(),
            final(self).words().len() == old(self).words().len(),
            forall|j: int|
                #[trigger] final(self).raw_bit(j) == if j == index {
                    value
                } else {
                    old(self).raw_bit(j)
                },
    {
        let k = index / USIZE_BITS;
        let t = (index % USIZE_BITS) as u64;
        let part = self.data[k];
        let mask: u64 = 1u64 << t;
        let new_part = if value {
            part | mask
        } else {
            part & !mask
        };
        self.data.set(k, new_part);
        assert forall|j: int|
            #[trigger] self.raw_bit(j) == if j == index {
                value
            } else {
                old(self).raw_bit(j)
            } by {
            if 0 <= j < self.words().len() * 64 && j / 64 == k {
                lemma_bit_mask(part, t, (j % 64) as u64);
            }
        }
    }

    /// Sets every bit to `value`; storage bits beyond `len` in the last word stay unset.
    pub fn fill(&mut self, value: bool)
        requires
            old(self).wf(),
        ensures
            final(self).wf(),
            final(self).spec_len() == old(self).spec_len(),
            final(self).words().len() == old(self).words().len(),
            forall|j: int|
                0 <= j < old(self).words().len() * 64 ==> #[trigger] final(self).raw_bit(j) == (
                value && !old(self).in_cleared_tail(j)),
    {
        let fill: u64 = if value {
            u64::MAX
        } else {
            0
        };
        let n = self.data.len();
        let mut i: usize = 0;
        while i < n
            invariant
                n == self.words().len(),
                n == old(self).words().len(),
                self.spec_len() == old(self).spec_len(),
                i <= n,
                forall|k: int| 0 <= k < i ==> #[trigger] self.words()[k] == fill,
            decreases n - i,
        {
            self.data.set(i, fill);
            i = i + 1;
        }
        proof {
            assert forall|j: int| 0 <= j < n * 64 implies #[trigger] self.raw_bit(j) == value by {
                lemma_bit_const((j % 64) as u64);
            }
        }
        self.fix_tail();
    }

    /// Bitwise and with `other`, word by word over the words both have.
    pub fn and(&mut self, other: &Self)
        requires
            old(self).wf(),
            old(self).spec_len() == other.spec_len(),
        ensures
            final(self).wf(),
            final(self).spec_len() == old(self).spec_len(),
            final(self).words().len() == old(self).words().len(),
            forall|j: int|
                #[trigger] final(self).raw_bit(j) == if j < other.words().len() * 64 && j < old(self).words().len() * 64 {
                    old(self).raw_bit(j) && other.raw_bit(j)
                } else {
                    old(self).raw_bit(j)
                },
    {
        let n = self.data.len();
        let m = other.data.len();
        let mut i: usize = 0;
        while i < n && i < m
            invariant
                n == self.words().len(),
                n == old(self).words().len(),
                m == other.words().len(),
                self.spec_len() == old(self).spec_len(),
                i <= n,
                i <= m,
                forall|k: int|
                    0 <= k < i ==> #[trigger] self.words()[k] == old(self).words()[k]
                        & other.words()[k],
                forall|k: int| i <= k < n ==> #[trigger] self.words()[k] == old(self).words()[k],
            decreases n - i,
        {
            let a = self.data[i];
            self.data.set(i, a & other.data[i]);
            i = i + 1;
        }
        assert forall|j: int|
            #[trigger] self.raw_bit(j) == if j < other.words().len() * 64 && j < old(self).words().len() * 64 {
                old(self).raw_bit(j) && other.raw_bit(j)
            } else {
                old(self).raw_bit(j)
            } by {
            if 0 <= j < n * 64 && j / 64 < m {
                lemma_bit_and_or(old(self).words()[j / 64], other.words()[j / 64], (j % 64) as u64);
            }
        }
    }

    /// Bitwise or with `other`, word by word over the words both have.
    pub fn or(&mut self, other: &Self)
        requires
            old(self).wf(),
            old(self).spec_len() == other.spec_len(),
        ensures
            final(self).wf(),
            final(self).spec_len() == old(self).spec_len(),
            final(self).words().len() == old(self).words().len(),
            forall|j: int|
                #[trigger] final(self).raw_bit(j) == if j < other.words().len() * 64 && j < old(self).words().len() * 64 {
                    old(self).raw_bit(j) || other.raw_bit(j)
                } else {
                    old(self).raw_bit(j)
                },
    {
        let n = self.data.len();
        let m = other.data.len();
        let mut i: usize = 0;
        while i < n && i < m
            invariant
                n == self.words().len(),
                n == old(self).words().len(),
                m == other.words().len(),
                self.spec_len() == old(self).spec_len(),
                i <= n,
                i <= m,
                forall|k: int|
                    0 <= k < i ==> #[trigger] self.words()[k] == old(self).words()[k]
                        | other.words()[k],
                forall|k: int| i <= k < n ==> #[trigger] self.words()[k] == old(self).words()[k],
            decreases n - i,
        {
            let a = self.data[i];
            self.data.set(i, a | other.data[i]);
            i = i + 1;
        }
        assert forall|j: int|
            #[trigger] self.raw_bit(j) == if j < other.words().len() * 64 && j < old(self).words().len() * 64 {
                old(self).raw_bit(j) || other.raw_bit(j)
            } else {
                old(self).raw_bit(j)
            } by {
            if 0 <= j < n * 64 && j / 64 < m {
                lemma_bit_and_or(old(self).words()[j / 64], other.words()[j / 64], (j % 64) as u64);
            }
        }
    }

    /// Sets every bit that has a set neighbour. Across a word boundary, a set bit also reaches
    /// the position two steps away. Storage bits beyond `len` in the last word are cleared.
    pub fn expand_one(&mut self)
        requires
            old(self).wf(),
        ensures
            final(self).wf(),
            final(self).spec_len() == old(self).spec_len(),
            final(self).words().len() == old(self).words().len(),
            forall|j: int|
                #![trigger final(self).raw_bit(j)]
                0 <= j < old(self).words().len() * 64 ==> final(self).raw_bit(j) == (
                expanded_bit(old(self).words(), j) && !old(self).in_cleared_tail(j)),
    {
        let ghost ow = self.words();
        let n = self.data.len();
        let mut i: usize = 0;
        while i < n
            invariant
                n == self.words().len(),
                n == ow.len(),
                ow == old(self).words(),
                self.spec_len() == old(self).spec_len(),
                i <= n,
                forall|k: int| 0 <= k < i ==> #[trigger] self.words()[k] == spread_word(ow[k]),
                forall|k: int| i <= k < n ==> #[trigger] self.words()[k] == ow[k],
            decreases n - i,
        {
            let w = self.data[i];
            self.data.set(i, w | (w >> 1u64) | (w << 1u64));
            i = i + 1;
        }
        if n > 0 {
            assert forall|j: int| 0 <= j < 64 implies #[trigger] seq_bit(self.words(), j)
                == expand_pending_bit(ow, j) by {
                lemma_spread_word_bits(ow, 0, j);
                lemma_seq_bit_word(self.words(), 0, j);
            }
        }
        let mut k: usize = 0;
        while k + 1 < n
            invariant
                n == self.words().len(),
                n == ow.len(),
                ow == old(self).words(),
                self.spec_len() == old(self).spec_len(),
                n > 0 ==> k < n,
                k <= n,
                forall|j: int|
                    0 <= j < 64 * k ==> #[trigger] seq_bit(self.words(), j) == expanded_bit(ow, j),
                n > 0 ==> forall|j: int|
                    64 * k <= j < 64 * k + 64 ==> #[trigger] seq_bit(self.words(), j)
                        == expand_pending_bit(ow, j),
                forall|i: int| k < i < n ==> #[trigger] self.words()[i] == spread_word(ow[i]),
            decreases n - k,
        {
            let ghost before = self.words();
            let a = self.data[k] | (self.data[k + 1] << 63u64);
            self.data.set(k, a);
            let b = self.data[k + 1] | (a >> 63u64);
            self.data.set(k + 1, b);
            proof {
                let cur = self.words();
                assert forall|j: int| 64 * k <= j < 64 * k + 64 implies #[trigger] seq_bit(cur, j)
                    == expanded_bit(ow, j) by {
                    let t = j - 64 * k;
                    lemma_seq_bit_word(cur, k as int, t);
                    lemma_seq_bit_word(before, k as int, t);
                    lemma_bit_carry(before[k as int], before[k + 1], t as u64);
                    lemma_spread_word_bits(ow, k + 1, 0);
                    assert(j + 1 == 64 * (k + 1) + 0 ==> true);
                }
                assert forall|j: int|
                    64 * (k + 1) <= j < 64 * (k + 1) + 64 implies #[trigger] seq_bit(cur, j)
                    == expand_pending_bit(ow, j) by {
                    let t = j - 64 * (k + 1);
                    lemma_seq_bit_word(cur, k + 1, t);
                    lemma_seq_bit_word(cur, k as int, 63);
                    lemma_bit_carry(a, before[k + 1], t as u64);
                    lemma_spread_word_bits(ow, k + 1, t);
                }
                assert forall|j: int| 0 <= j < 64 * (k + 1) implies #[trigger] seq_bit(cur, j)
                    == expanded_bit(ow, j) by {
                    if j < 64 * k {
                        assert(seq_bit(before, j) == expanded_bit(ow, j));
                        assert(j / 64 < k);
                    }
                }
            }
            k = k + 1;
        }
        proof {
            if n > 0 {
                let cur = self.words();
                assert forall|j: int| 64 * k <= j < 64 * k + 64 implies #[trigger] seq_bit(cur, j)
                    == expanded_bit(ow, j) by {
                    assert(j % 64 == 63 ==> j + 1 >= cur.len() * 64);
                }
            }
        }
        self.fix_tail();
    }
}

impl Clone for FixedBits {
    fn clone(&self) -> (r: Self)
        ensures
            r.words() == self.words(),
            r.spec_len() == self.spec_len(),
    {
        let data = self.data.clone();
        assert(data@ =~= self.data@);
        FixedBits { data, bits: self.bits }
    }
}

/// Reading back after `set(index, value)` gives `value` at `index` and the old bits
/// everywhere else.
pub proof fn lemma_get_after_set(before: FixedBits, after: FixedBits, index: int, value: bool)
    requires
        0 <= index < before.spec_len(),
        after.spec_len() == before.spec_len(),
        forall|j: int| #[trigger] after.raw_bit(j) == if j == index {
            value
        } else {
            before.raw_bit(j)
        },
    ensures
        after.view_bits() == before.view_bits().update(index, value),
{
    assert(after.view_bits() =~= before.view_bits().update(index, value));
}

} // verus!
