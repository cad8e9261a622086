use ahash::{AHashSet, RandomState};
use vstd::prelude::*;

verus! {

/// Why the colors of an image could not be extracted.
#[derive(Debug, Clone, PartialEq, Eq, Structural)]
pub enum ExtractionError {
    TooManyColors { max_colors: usize, actual_colors: usize },
    UnsupportedChannels { channels: usize },
}

#[verifier::external_type_specification]
#[verifier::external_body]
#[verifier::reject_recursive_types(T)]
#[verifier::reject_recursive_types(S)]
pub struct ExKeySet<T, S>(AHashSet<T, S>);

#[verifier::external_type_specification]
#[verifier::external_body]
pub struct ExKeySetHasher(RandomState);

/// The keys that the set `s` holds.
pub uninterp spec fn set_keys(s: AHashSet<u128>) -> Set<u128>;

/// `AHashSet::new`: a set that holds no key.
#[verifier::external_body]
fn new_key_set() -> (r: AHashSet<u128>)
    ensures
        set_keys(r) == Set::<u128>::empty(),
{
    AHashSet::new()
}

/// `HashSet::insert`, reached through `AHashSet`'s `DerefMut`: the set holds `key` afterwards,
/// and the result tells whether it did not hold it before.
#[verifier::external_body]
fn insert_key(s: &mut AHashSet<u128>, key: u128) -> (fresh: bool)
    ensures
        set_keys(*final(s)) == set_keys(*old(s)).insert(key),
        fresh == !set_keys(*old(s)).contains(key),
{
    s.insert(key)
}

/// `HashSet::len`, reached through `AHashSet`'s `Deref`: the number of keys in the set.
#[verifier::external_body]
fn key_count(s: &AHashSet<u128>) -> (n: usize)
    ensures
        n == set_keys(*s).len(),
{
    s.len()
}

/// `AHashSet::into_iter`, collected: each key of the set once, in an order that the set picks.
#[verifier::external_body]
fn keys_of(s: AHashSet<u128>) -> (v: Vec<u128>)
    ensures
        v@.to_set() == set_keys(s),
        v@.no_duplicates(),
{
    s.into_iter().collect()
}

/// `2^32`, the distance between the channels of a color key.
pub open spec fn channel_unit() -> int {
    0x1_0000_0000
}

/// The key of a color whose channels hold the bits `c`: the channels 32 bits apart, the first
/// lowest.
pub open spec fn color_key(c: Seq<u32>) -> int
    decreases c.len(),
{
    if c.len() == 0 {
        0
    } else {
        c[0] + channel_unit() * color_key(c.drop_first())
    }
}

/// `2^(32 * m)` for the channel counts `m` that a key holds.
pub open spec fn key_bound(m: int) -> int {
    if m <= 0 {
        1
    } else if m == 1 {
        0x1_0000_0000
    } else if m == 2 {
        0x1_0000_0000_0000_0000
    } else if m == 3 {
        0x1_0000_0000_0000_0000_0000_0000
    } else {
        0x1_0000_0000_0000_0000_0000_0000int * 0x1_0000_0000int
    }
}

/// The channel bits of pixel `i` of the flat channel values `bits` of `channels` channels.
pub open spec fn pixel_bits(bits: Seq<u32>, channels: int, i: int) -> Seq<u32> {
    bits.subrange(i * channels, i * channels + channels)
}

/// The keys of the colors of the first `n` pixels of `bits`.
pub open spec fn first_color_keys(bits: Seq<u32>, channels: int, n: int) -> Set<u128> {
    Set::new(
        |k: u128|
            exists|i: int| 0 <= i < n && k as int == #[trigger] color_key(pixel_bits(bits, channels, i)),
    )
}

/// The keys of the colors of all pixels of `bits`.
pub open spec fn color_keys(bits: Seq<u32>, channels: int) -> Set<u128> {
    first_color_keys(bits, channels, bits.len() as int / channels)
}

/// A key of up to four channels lies below `2^(32 * channels)`.
pub proof fn lemma_color_key_bound(c: Seq<u32>)
    requires
        c.len() <= 4,
    ensures
        0 <= color_key(c) < key_bound(c.len() as int),
    decreases c.len(),
{
    if c.len() > 0 {
        let rest = c.drop_first();
        lemma_color_key_bound(rest);
        let k = color_key(rest);
        let b = key_bound(rest.len() as int);
        assert(c[0] + channel_unit() * k < channel_unit() * b) by (nonlinear_arith)
            requires
                0 <= c[0] < channel_unit(),
                0 <= k < b,
                channel_unit() == 0x1_0000_0000,
        ;
        assert(0 <= channel_unit() * k) by (nonlinear_arith)
            requires
                0 <= k,
                channel_unit() == 0x1_0000_0000,
        ;
    }
}

/// Colors of as many channels with one key are the same color: a key tells the color.
pub proof fn lemma_color_key_injective(c1: Seq<u32>, c2: Seq<u32>)
    requires
        c1.len() == c2.len(),
        color_key(c1) == color_key(c2),
    ensures
        c1 == c2,
    decreases c1.len(),
{
    if c1.len() > 0 {
        let (r1, r2) = (c1.drop_first(), c2.drop_first());
        lemma_color_key_nonnegative(r1);
        lemma_color_key_nonnegative(r2);
        vstd::arithmetic::div_mod::lemma_fundamental_div_mod_converse(
            color_key(c1),
            channel_unit(),
            color_key(r1),
            c1[0] as int,
        );
        vstd::arithmetic::div_mod::lemma_fundamental_div_mod_converse(
            color_key(c2),
            channel_unit(),
            color_key(r2),
            c2[0] as int,
        );
        lemma_color_key_injective(r1, r2);
        assert(c1 =~= c2) by {
            assert forall|i: int| 0 <= i < c1.len() implies c1[i] == c2[i] by {
                if i > 0 {
                    assert(c1[i] == r1[i - 1]);
                    assert(c2[i] == r2[i - 1]);
                }
            }
        }
    }
}

proof fn lemma_color_key_nonnegative(c: Seq<u32>)
    ensures
        color_key(c) >= 0,
    decreases c.len(),
{
    if c.len() > 0 {
        lemma_color_key_nonnegative(c.drop_first());
        let k = color_key(c.drop_first());
        assert(channel_unit() * k >= 0) by (nonlinear_arith)
            requires
                k >= 0,
                channel_unit() == 0x1_0000_0000,
        ;
    }
}

/// Appending channel `x` to the color `c` adds `x` times `2^(32 * len)` to its key.
proof fn lemma_color_key_push(c: Seq<u32>, x: u32)
    requires
        c.len() <= 3,
    ensures
        color_key(c.push(x)) == color_key(c) + key_bound(c.len() as int) * x,
    decreases c.len(),
{
    if c.len() == 0 {
        assert(c.push(x).drop_first() =~= Seq::<u32>::empty());
        assert(color_key(Seq::<u32>::empty()) == 0);
        assert(color_key(c.push(x)) == x + channel_unit() * color_key(c.push(x).drop_first()));
    } else {
        assert(c.push(x).drop_first() =~= c.drop_first().push(x));
        assert(c.push(x)[0] == c[0]);
        assert(color_key(c.push(x)) == c[0] + channel_unit() * color_key(c.push(x).drop_first()));
        lemma_color_key_push(c.drop_first(), x);
        let k = color_key(c.drop_first());
        let b = key_bound(c.len() - 1);
        assert(c.len() == 1 || c.len() == 2 || c.len() == 3);
        assert(key_bound(c.len() as int) == channel_unit() * b);
        assert(channel_unit() * (k + b * x) == channel_unit() * k + (channel_unit() * b) * x)
            by (nonlinear_arith);
    }
}

/// The key of the color of the `channels` channel values of `bits` from `start` on.
pub fn pack_color(bits: &[u32], start: usize, channels: usize) -> (key: u128)
    requires
        1 <= channels <= 4,
        start + channels <= bits@.len(),
    ensures
        key as int == color_key(bits@.subrange(start as int, start + channels)),
{
    let len = bits.len();
    let mut key: u128 = 0;
    let mut j: usize = channels;
    while j > 0
        invariant
            len == bits@.len(),
            j <= channels <= 4,
            start + channels <= bits@.len(),
            key as int == color_key(bits@.subrange(start + j, start + channels)),
        decreases j,
    {
        let ghost rest = bits@.subrange(start + j, start + channels);
        proof {
            lemma_color_key_bound(rest);
        }
        j = j - 1;
        let x = bits[start + j];
        let ghost k = key as int;
        assert(k * channel_unit() + x < key_bound(4)) by (nonlinear_arith)
            requires
                0 <= k < key_bound(3),
                0 <= x < channel_unit(),
                channel_unit() == 0x1_0000_0000,
                key_bound(3) == 0x1_0000_0000_0000_0000_0000_0000,
                key_bound(4) == 0x1_0000_0000_0000_0000_0000_0000int * 0x1_0000_0000int,
        ;
        key = key * 0x1_0000_0000 + x as u128;
        proof {
            let c = bits@.subrange(start + j, start + channels);
            assert(c.drop_first() =~= rest);
        }
    }
    assert(bits@.subrange(start as int, start + channels) =~= bits@.subrange(start + 0, start + channels));
    key
}

/// The channel values of the color of `channels` channels whose key is `key`, the first channel
/// first.
pub fn unpack_color(key: u128, channels: usize) -> (c: Vec<u32>)
    requires
        1 <= channels <= 4,
        (key as int) < key_bound(channels as int),
    ensures
        c@.len() == channels,
        color_key(c@) == key,
{
    let mut c: Vec<u32> = Vec::new();
    let mut k: u128 = key;
    let mut j: usize = 0;
    while j < channels
        invariant
            j <= channels <= 4,
            c@.len() == j,
            key as int == color_key(c@) + key_bound(j as int) * k,
            (k as int) * key_bound(j as int) < key_bound(channels as int),
        decreases channels - j,
    {
        let x = (k % 0x1_0000_0000) as u32;
        let rest = k / 0x1_0000_0000;
        proof {
            lemma_color_key_push(c@, x);
            vstd::arithmetic::div_mod::lemma_fundamental_div_mod(k as int, channel_unit());
            let b = key_bound(j as int);
            let b1 = key_bound(j + 1);
            assert(b1 == b * channel_unit());
            assert(b * (k as int) == b * x + b1 * rest) by (nonlinear_arith)
                requires
                    k as int == channel_unit() * rest + x,
                    b1 == b * channel_unit(),
            ;
            assert((rest as int) * b1 <= (k as int) * b) by (nonlinear_arith)
                requires
                    k as int == channel_unit() * rest + x,
                    b1 == b * channel_unit(),
                    x >= 0,
                    b > 0,
            ;
        }
        c.push(x);
        k = rest;
        j = j + 1;
    }
    assert(k == 0) by (nonlinear_arith)
        requires
            (k as int) * key_bound(channels as int) < key_bound(channels as int),
            key_bound(channels as int) > 0,
    ;
    c
}

/// The keys of the distinct colors of the pixels whose channel values are `bits`, `channels` per
/// pixel, where there are at most `max_colors` of them; each key once, in an order that the key
/// set picks. `unpack_color` turns a key back into its channel values.
pub fn unique_colors(bits: &[u32], channels: usize, max_colors: usize) -> (r: Result<
    Vec<u128>,
    ExtractionError,
>)
    requires
        1 <= channels <= 4 ==> bits@.len() as int % (channels as int) == 0,
    ensures
        !(1 <= channels <= 4) ==> r == (Err::<Vec<u128>, ExtractionError>(
            ExtractionError::UnsupportedChannels { channels },
        )),
        1 <= channels <= 4 ==> (r is Ok <==> color_keys(bits@, channels as int).len() <= max_colors),
        1 <= channels <= 4 ==> (r matches Err(e) ==> e == (ExtractionError::TooManyColors {
            max_colors,
            actual_colors: color_keys(bits@, channels as int).len() as usize,
        })),
        r matches Ok(v) ==> v@.no_duplicates() && v@.to_set() == color_keys(bits@, channels as int),
{
    if channels < 1 || channels > 4 {
        return Err(ExtractionError::UnsupportedChannels { channels });
    }
    let len = bits.len();
    let n = len / channels;
    let mut set = new_key_set();
    let mut i: usize = 0;
    proof {
        assert(first_color_keys(bits@, channels as int, 0) =~= Set::<u128>::empty());
    }
    while i < n
        invariant
            len == bits@.len(),
            1 <= channels <= 4,
            bits@.len() as int % (channels as int) == 0,
            n == bits@.len() as int / (channels as int),
            i <= n,
            set_keys(set) == first_color_keys(bits@, channels as int, i as int),
            set_keys(set).finite(),
        decreases n - i,
    {
        proof {
            assert((i + 1) * channels <= n * channels) by (nonlinear_arith)
                requires
                    i < n,
                    channels >= 1,
            ;
            vstd::arithmetic::div_mod::lemma_fundamental_div_mod(bits@.len() as int, channels as int);
            assert(channels * n == n * channels) by (nonlinear_arith);
            assert(i * channels + channels == (i + 1) * channels) by (nonlinear_arith);
        }
        let key = pack_color(bits, i * channels, channels);
        let ghost before = set_keys(set);
        insert_key(&mut set, key);
        proof {
            let next = first_color_keys(bits@, channels as int, i + 1);
            assert(pixel_bits(bits@, channels as int, i as int) =~= bits@.subrange(
                (i * channels) as int,
                i * channels + channels,
            ));
            assert forall|k: u128| #[trigger] next.contains(k) <==> before.insert(key).contains(k) by {
                if next.contains(k) {
                    let t = choose|t: int|
                        0 <= t < i + 1 && k as int == #[trigger] color_key(
                            pixel_bits(bits@, channels as int, t),
                        );
                    if t < i {
                        assert(before.contains(k));
                    }
                }
                if before.contains(k) {
                    let t = choose|t: int|
                        0 <= t < i && k as int == #[trigger] color_key(
                            pixel_bits(bits@, channels as int, t),
                        );
                    assert(next.contains(k));
                }
                if k == key {
                    assert(k as int == color_key(pixel_bits(bits@, channels as int, i as int)));
                }
            }
            assert(next =~= before.insert(key));
        }
        i = i + 1;
    }
    let count = key_count(&set);
    if count > max_colors {
        return Err(ExtractionError::TooManyColors { max_colors, actual_colors: count });
    }
    Ok(keys_of(set))
}

} // verus!
