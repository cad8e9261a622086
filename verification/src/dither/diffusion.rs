use vstd::prelude::*;

verus! {

/// How many pixels the error reaches to the left and to the right of the current one.
pub const ERROR_ROW_OFFSET: usize = 2;

/// The error rows of error diffusion: the current row and the two below it. Each row has room
/// for `ERROR_ROW_OFFSET` pixels on either side of the image.
pub struct ErrorRows<P>(pub Vec<P>, pub Vec<P>, pub Vec<P>);

impl<P: Clone + Default> ErrorRows<P> {
    /// Three rows of `width + 2 * ERROR_ROW_OFFSET` default values.
    pub fn new(width: usize) -> (r: Self)
        requires
            width + 2 * ERROR_ROW_OFFSET <= usize::MAX,
        ensures
            r.0@.len() == width + 2 * ERROR_ROW_OFFSET,
            r.1@.len() == width + 2 * ERROR_ROW_OFFSET,
            r.2@.len() == width + 2 * ERROR_ROW_OFFSET,
            forall|i: int|
                0 <= i < width + 2 * ERROR_ROW_OFFSET ==> is_default_clone(#[trigger] r.0@[i])
                    && is_default_clone(r.1@[i]) && is_default_clone(r.2@[i]),
    {
        let n = width + ERROR_ROW_OFFSET * 2;
        ErrorRows(default_row(n), default_row(n), default_row(n))
    }

    /// Moves on by one row: the row below becomes the current one, the one below that
    /// follows, and a row of default values comes last.
    pub fn rotate(&mut self)
        ensures
            final(self).0 == old(self).1,
            final(self).1 == old(self).2,
            final(self).2@.len() == old(self).0@.len(),
            forall|i: int|
                0 <= i < old(self).0@.len() ==> is_default_clone(#[trigger] final(self).2@[i]),
    {
        std::mem::swap(&mut self.0, &mut self.1);
        std::mem::swap(&mut self.1, &mut self.2);
        let d: P = P::default();
        let n = self.2.len();
        let mut i: usize = 0;
        while i < n
            invariant
                n == self.2@.len(),
                n == old(self).0@.len(),
                self.0 == old(self).1,
                self.1 == old(self).2,
                i <= n,
                P::default.ensures((), d),
                forall|k: int| 0 <= k < i ==> cloned(d, #[trigger] self.2@[k]),
            decreases n - i,
        {
            self.2.set(i, d.clone());
            i = i + 1;
        }
    }
}

/// `p` is a clone of a default value of its type.
pub open spec fn is_default_clone<P: Clone + Default>(p: P) -> bool {
    exists|d: P| P::default.ensures((), d) && cloned(d, p)
}

/// A row of `n` clones of a default value.
fn default_row<P: Clone + Default>(n: usize) -> (r: Vec<P>)
    ensures
        r@.len() == n,
        forall|i: int| 0 <= i < n ==> is_default_clone(#[trigger] r@[i]),
{
    let d: P = P::default();
    let r = vec![d; n];
    assert forall|i: int| 0 <= i < n implies is_default_clone(#[trigger] r@[i]) by {
        assert(P::default.ensures((), d) && cloned(d, r@[i]));
    }
    r
}

/// One weight of an error diffusion kernel: `numerator / denominator` of the error of the
/// current pixel goes to the pixel `x` columns from it in error row `y` (0 is the current row).
#[derive(Clone, Copy, Debug, PartialEq, Eq)]
pub struct Weight {
    pub y: usize,
    pub x: isize,
    pub numerator: u32,
    pub denominator: u32,
}

/// The weight `numerator / denominator` for the pixel `x` columns away in error row `y`.
pub open spec fn weight(y: usize, x: isize, numerator: u32, denominator: u32) -> Weight {
    Weight { y, x, numerator, denominator }
}

/// Receives the weights with which an error diffusion kernel spreads the error of a pixel.
pub trait Diffuser {
    /// The weights handed to this diffuser so far, in order.
    spec fn received(&self) -> Seq<Weight>;

    /// Gives `numerator / denominator` of the error to the pixel `x` columns from the current
    /// one in error row `y` (0 is the current row).
    fn assign_weight(&mut self, y: usize, x: isize, numerator: u32, denominator: u32)
        requires
            y < 3,
            -(ERROR_ROW_OFFSET as int) <= x <= ERROR_ROW_OFFSET as int,
            0 < numerator <= denominator,
        ensures
            final(self).received() == old(self).received().push(weight(y, x, numerator, denominator)),
    ;
}

/// An error diffusion kernel.
pub trait DiffusionAlgorithm {
    /// The weights of the kernel, in the order in which `define_weights` hands them out.
    spec fn kernel(&self) -> Seq<Weight>;

    /// Hands each weight of the kernel to `diffuser`.
    fn define_weights<D: Diffuser>(&self, diffuser: &mut D)
        ensures
            final(diffuser).received() == old(diffuser).received() + self.kernel(),
    ;
}

/// A diffuser that writes the weights down.
pub struct WeightList {
    pub weights: Vec<Weight>,
}

impl Diffuser for WeightList {
    open spec fn received(&self) -> Seq<Weight> {
        self.weights@
    }

    fn assign_weight(&mut self, y: usize, x: isize, numerator: u32, denominator: u32) {
        self.weights.push(Weight { y, x, numerator, denominator });
    }
}

/// The weights of the kernel `algorithm`, in the order in which it hands them out.
pub fn kernel_weights<A: DiffusionAlgorithm>(algorithm: &A) -> (r: Vec<Weight>)
    ensures
        r@ == algorithm.kernel(),
{
    let mut list = WeightList { weights: Vec::new() };
    algorithm.define_weights(&mut list);
    assert(list.weights@ =~= algorithm.kernel());
    list.weights
}

pub struct Atkinson;

impl DiffusionAlgorithm for Atkinson {
    open spec fn kernel(&self) -> Seq<Weight> {
        seq![
            weight(0, 1, 1, 8),
            weight(0, 2, 1, 8),
            weight(1, -1isize, 1, 8),
            weight(1, 0, 1, 8),
            weight(1, 1, 1, 8),
            weight(2, 0, 1, 8),
        ]
    }

    fn define_weights<D: Diffuser>(&self, diffuser: &mut D) {
        diffuser.assign_weight(0, 1, 1, 8);
        diffuser.assign_weight(0, 2, 1, 8);

        diffuser.assign_weight(1, -1isize, 1, 8);
        diffuser.assign_weight(1, 0, 1, 8);
        diffuser.assign_weight(1, 1, 1, 8);

        diffuser.assign_weight(2, 0, 1, 8);
        assert(diffuser.received() =~= old(diffuser).received() + self.kernel());
    }
}

pub struct Burkes;

impl DiffusionAlgorithm for Burkes {
    open spec fn kernel(&self) -> Seq<Weight> {
        seq![
            weight(0, 1, 8, 32),
            weight(0, 2, 4, 32),
            weight(1, -2isize, 2, 32),
            weight(1, -1isize, 4, 32),
            weight(1, 0, 8, 32),
            weight(1, 1, 4, 32),
            weight(1, 2, 2, 32),
        ]
    }

    fn define_weights<D: Diffuser>(&self, diffuser: &mut D) {
        diffuser.assign_weight(0, 1, 8, 32);
        diffuser.assign_weight(0, 2, 4, 32);

        diffuser.assign_weight(1, -2isize, 2, 32);
        diffuser.assign_weight(1, -1isize, 4, 32);
        diffuser.assign_weight(1, 0, 8, 32);
        diffuser.assign_weight(1, 1, 4, 32);
        diffuser.assign_weight(1, 2, 2, 32);
        assert(diffuser.received() =~= old(diffuser).received() + self.kernel());
    }
}

pub struct FloydSteinberg;

impl DiffusionAlgorithm for FloydSteinberg {
    open spec fn kernel(&self) -> Seq<Weight> {
        seq![
            weight(0, 1, 7, 16),
            weight(1, -1isize, 3, 16),
            weight(1, 0, 5, 16),
            weight(1, 1, 1, 16),
        ]
    }

    fn define_weights<D: Diffuser>(&self, diffuser: &mut D) {
        diffuser.assign_weight(0, 1, 7, 16);

        diffuser.assign_weight(1, -1isize, 3, 16);
        diffuser.assign_weight(1, 0, 5, 16);
        diffuser.assign_weight(1, 1, 1, 16);
        assert(diffuser.received() =~= old(diffuser).received() + self.kernel());
    }
}

pub struct JarvisJudiceNinke;

impl DiffusionAlgorithm for JarvisJudiceNinke {
    open spec fn kernel(&self) -> Seq<Weight> {
        seq![
            weight(0, 1, 7, 48),
            weight(0, 2, 5, 48),
            weight(1, -2isize, 3, 48),
            weight(1, -1isize, 5, 48),
            weight(1, 0, 7, 48),
            weight(1, 1, 5, 48),
            weight(1, 2, 3, 48),
            weight(2, -2isize, 1, 48),
            weight(2, -1isize, 3, 48),
            weight(2, 0, 5, 48),
            weight(2, 1, 3, 48),
            weight(2, 2, 1, 48),
        ]
    }

    fn define_weights<D: Diffuser>(&self, diffuser: &mut D) {
        diffuser.assign_weight(0, 1, 7, 48);
        diffuser.assign_weight(0, 2, 5, 48);

        diffuser.assign_weight(1, -2isize, 3, 48);
        diffuser.assign_weight(1, -1isize, 5, 48);
        diffuser.assign_weight(1, 0, 7, 48);
        diffuser.assign_weight(1, 1, 5, 48);
        diffuser.assign_weight(1, 2, 3, 48);

        diffuser.assign_weight(2, -2isize, 1, 48);
        diffuser.assign_weight(2, -1isize, 3, 48);
        diffuser.assign_weight(2, 0, 5, 48);
        diffuser.assign_weight(2, 1, 3, 48);
        diffuser.assign_weight(2, 2, 1, 48);
        assert(diffuser.received() =~= old(diffuser).received() + self.kernel());
    }
}

pub struct Sierra;

impl DiffusionAlgorithm for Sierra {
    open spec fn kernel(&self) -> Seq<Weight> {
        seq![
            weight(0, 1, 5, 32),
            weight(0, 2, 3, 32),
            weight(1, -2isize, 2, 32),
            weight(1, -1isize, 4, 32),
            weight(1, 0, 5, 32),
            weight(1, 1, 4, 32),
            weight(1, 2, 2, 32),
            weight(2, -1isize, 2, 32),
            weight(2, 0, 3, 32),
            weight(2, 1, 2, 32),
        ]
    }

    fn define_weights<D: Diffuser>(&self, diffuser: &mut D) {
        diffuser.assign_weight(0, 1, 5, 32);
        diffuser.assign_weight(0, 2, 3, 32);

        diffuser.assign_weight(1, -2isize, 2, 32);
        diffuser.assign_weight(1, -1isize, 4, 32);
        diffuser.assign_weight(1, 0, 5, 32);
        diffuser.assign_weight(1, 1, 4, 32);
        diffuser.assign_weight(1, 2, 2, 32);

        diffuser.assign_weight(2, -1isize, 2, 32);
        diffuser.assign_weight(2, 0, 3, 32);
        diffuser.assign_weight(2, 1, 2, 32);
        assert(diffuser.received() =~= old(diffuser).received() + self.kernel());
    }
}

pub struct TwoRowSierra;

impl DiffusionAlgorithm for TwoRowSierra {
    open spec fn kernel(&self) -> Seq<Weight> {
        seq![
            weight(0, 1, 4, 16),
            weight(0, 2, 3, 16),
            weight(1, -2isize, 1, 16),
            weight(1, -1isize, 2, 16),
            weight(1, 0, 3, 16),
            weight(1, 1, 2, 16),
            weight(1, 2, 1, 16),
        ]
    }

    fn define_weights<D: Diffuser>(&self, diffuser: &mut D) {
        diffuser.assign_weight(0, 1, 4, 16);
        diffuser.assign_weight(0, 2, 3, 16);

        diffuser.assign_weight(1, -2isize, 1, 16);
        diffuser.assign_weight(1, -1isize, 2, 16);
        diffuser.assign_weight(1, 0, 3, 16);
        diffuser.assign_weight(1, 1, 2, 16);
        diffuser.assign_weight(1, 2, 1, 16);
        assert(diffuser.received() =~= old(diffuser).received() + self.kernel());
    }
}

pub struct SierraLite;

impl DiffusionAlgorithm for SierraLite {
    open spec fn kernel(&self) -> Seq<Weight> {
        seq![
            weight(0, 1, 2, 4),
            weight(1, -1isize, 1, 4),
            weight(1, 0, 1, 4),
        ]
    }

    fn define_weights<D: Diffuser>(&self, diffuser: &mut D) {
        diffuser.assign_weight(0, 1, 2, 4);

        diffuser.assign_weight(1, -1isize, 1, 4);
        diffuser.assign_weight(1, 0, 1, 4);
        assert(diffuser.received() =~= old(diffuser).received() + self.kernel());
    }
}

pub struct Stucki;

impl DiffusionAlgorithm for Stucki {
    open spec fn kernel(&self) -> Seq<Weight> {
        seq![
            weight(0, 1, 8, 42),
            weight(0, 2, 4, 42),
            weight(1, -2isize, 2, 42),
            weight(1, -1isize, 4, 42),
            weight(1, 0, 8, 42),
            weight(1, 1, 4, 42),
            weight(1, 2, 2, 42),
            weight(2, -2isize, 1, 42),
            weight(2, -1isize, 2, 42),
            weight(2, 0, 4, 42),
            weight(2, 1, 2, 42),
            weight(2, 2, 1, 42),
        ]
    }

    fn define_weights<D: Diffuser>(&self, diffuser: &mut D) {
        diffuser.assign_weight(0, 1, 8, 42);
        diffuser.assign_weight(0, 2, 4, 42);

        diffuser.assign_weight(1, -2isize, 2, 42);
        diffuser.assign_weight(1, -1isize, 4, 42);
        diffuser.assign_weight(1, 0, 8, 42);
        diffuser.assign_weight(1, 1, 4, 42);
        diffuser.assign_weight(1, 2, 2, 42);

        diffuser.assign_weight(2, -2isize, 1, 42);
        diffuser.assign_weight(2, -1isize, 2, 42);
        diffuser.assign_weight(2, 0, 4, 42);
        diffuser.assign_weight(2, 1, 2, 42);
        diffuser.assign_weight(2, 2, 1, 42);
        assert(diffuser.received() =~= old(diffuser).received() + self.kernel());
    }
}

/// The kernel `k` passes error only on to pixels that are still to come: to the right in the
/// current row, or to a row below, within the error rows.
pub open spec fn forward(k: Seq<Weight>) -> bool {
    forall|i: int|
        0 <= i < k.len() ==> {
            let w = #[trigger] k[i];
            &&& w.y < 3
            &&& -(ERROR_ROW_OFFSET as int) <= w.x <= ERROR_ROW_OFFSET as int
            &&& w.y > 0 || w.x > 0
            &&& 0 < w.numerator <= w.denominator
        }
}

/// The sum of the numerators of the first `n` weights of `k`.
pub open spec fn numerator_sum(k: Seq<Weight>, n: int) -> int
    decreases n,
{
    if n <= 0 {
        0
    } else {
        numerator_sum(k, n - 1) + k[n - 1].numerator
    }
}

/// Every weight of `k` has the denominator `d`, and together they pass on `share` of the error
/// (in `d`-ths).
pub open spec fn passes_on(k: Seq<Weight>, d: int, share: int) -> bool {
    &&& forall|i: int| 0 <= i < k.len() ==> (#[trigger] k[i]).denominator == d
    &&& numerator_sum(k, k.len() as int) == share
}

/// Every kernel passes the error of a pixel only on to pixels that are still to come, and
/// passes on all of it, but for Atkinson's, which passes on three quarters of it.
pub proof fn lemma_kernels_diffuse_forward()
    ensures
        forward(Atkinson.kernel()),
        forward(Burkes.kernel()),
        forward(FloydSteinberg.kernel()),
        forward(JarvisJudiceNinke.kernel()),
        forward(Sierra.kernel()),
        forward(TwoRowSierra.kernel()),
        forward(SierraLite.kernel()),
        forward(Stucki.kernel()),
        passes_on(Atkinson.kernel(), 8, 6),
        passes_on(Burkes.kernel(), 32, 32),
        passes_on(FloydSteinberg.kernel(), 16, 16),
        passes_on(JarvisJudiceNinke.kernel(), 48, 48),
        passes_on(Sierra.kernel(), 32, 32),
        passes_on(TwoRowSierra.kernel(), 16, 16),
        passes_on(SierraLite.kernel(), 4, 4),
        passes_on(Stucki.kernel(), 42, 42),
{
    reveal_with_fuel(numerator_sum, 13);
}

/// The share, in numerators, that the kernel `k` gives to the pixel `x` columns from the
/// current one in error row `y`: the sum over the weights aimed at that pixel, 0 where none is.
pub open spec fn share_at(k: Seq<Weight>, y: int, x: int) -> int
    decreases k.len(),
{
    if k.len() == 0 {
        0
    } else {
        let w = k.last();
        share_at(k.drop_last(), y, x) + if w.y as int == y && w.x as int == x {
            w.numerator as int
        } else {
            0
        }
    }
}

/// The shares that the kernel `k` gives to the five pixels of error row `y`, from two columns
/// left of the current pixel to two columns right of it.
pub open spec fn row_shares(k: Seq<Weight>, y: int) -> Seq<int> {
    seq![
        share_at(k, y, -2),
        share_at(k, y, -1),
        share_at(k, y, 0),
        share_at(k, y, 1),
        share_at(k, y, 2),
    ]
}

/// Atkinson's kernel, row by row as it is published (in 8-ths, from two columns left of the
/// pixel to two columns right of it; the pixel itself and those left of it in its own row
/// get nothing): 0, 0, 0, 1, 1 / 0, 1, 1, 1, 0 / 0, 0, 1, 0, 0.
pub proof fn lemma_atkinson_grid()
    ensures
        row_shares(Atkinson.kernel(), 0) == seq![0int, 0, 0, 1, 1],
        row_shares(Atkinson.kernel(), 1) == seq![0int, 1, 1, 1, 0],
        row_shares(Atkinson.kernel(), 2) == seq![0int, 0, 1, 0, 0],
{
    reveal_with_fuel(share_at, 13);
    let k = Atkinson.kernel();
    assert(row_shares(k, 0) =~= seq![0int, 0, 0, 1, 1]);
    assert(row_shares(k, 1) =~= seq![0int, 1, 1, 1, 0]);
    assert(row_shares(k, 2) =~= seq![0int, 0, 1, 0, 0]);
}

/// Burkes's kernel, row by row as it is published (in 32-ths, from two columns left of the
/// pixel to two columns right of it; the pixel itself and those left of it in its own row
/// get nothing): 0, 0, 0, 8, 4 / 2, 4, 8, 4, 2 / 0, 0, 0, 0, 0.
pub proof fn lemma_burkes_grid()
    ensures
        row_shares(Burkes.kernel(), 0) == seq![0int, 0, 0, 8, 4],
        row_shares(Burkes.kernel(), 1) == seq![2int, 4, 8, 4, 2],
        row_shares(Burkes.kernel(), 2) == seq![0int, 0, 0, 0, 0],
{
    reveal_with_fuel(share_at, 13);
    let k = Burkes.kernel();
    assert(row_shares(k, 0) =~= seq![0int, 0, 0, 8, 4]);
    assert(row_shares(k, 1) =~= seq![2int, 4, 8, 4, 2]);
    assert(row_shares(k, 2) =~= seq![0int, 0, 0, 0, 0]);
}

/// FloydSteinberg's kernel, row by row as it is published (in 16-ths, from two columns left of the
/// pixel to two columns right of it; the pixel itself and those left of it in its own row
/// get nothing): 0, 0, 0, 7, 0 / 0, 3, 5, 1, 0 / 0, 0, 0, 0, 0.
pub proof fn lemma_floyd_steinberg_grid()
    ensures
        row_shares(FloydSteinberg.kernel(), 0) == seq![0int, 0, 0, 7, 0],
        row_shares(FloydSteinberg.kernel(), 1) == seq![0int, 3, 5, 1, 0],
        row_shares(FloydSteinberg.kernel(), 2) == seq![0int, 0, 0, 0, 0],
{
    reveal_with_fuel(share_at, 13);
    let k = FloydSteinberg.kernel();
    assert(row_shares(k, 0) =~= seq![0int, 0, 0, 7, 0]);
    assert(row_shares(k, 1) =~= seq![0int, 3, 5, 1, 0]);
    assert(row_shares(k, 2) =~= seq![0int, 0, 0, 0, 0]);
}

/// JarvisJudiceNinke's kernel, row by row as it is published (in 48-ths, from two columns left of the
/// pixel to two columns right of it; the pixel itself and those left of it in its own row
/// get nothing): 0, 0, 0, 7, 5 / 3, 5, 7, 5, 3 / 1, 3, 5, 3, 1.
pub proof fn lemma_jarvis_judice_ninke_grid()
    ensures
        row_shares(JarvisJudiceNinke.kernel(), 0) == seq![0int, 0, 0, 7, 5],
        row_shares(JarvisJudiceNinke.kernel(), 1) == seq![3int, 5, 7, 5, 3],
        row_shares(JarvisJudiceNinke.kernel(), 2) == seq![1int, 3, 5, 3, 1],
{
    reveal_with_fuel(share_at, 13);
    let k = JarvisJudiceNinke.kernel();
    assert(row_shares(k, 0) =~= seq![0int, 0, 0, 7, 5]);
    assert(row_shares(k, 1) =~= seq![3int, 5, 7, 5, 3]);
    assert(row_shares(k, 2) =~= seq![1int, 3, 5, 3, 1]);
}

/// Sierra's kernel, row by row as it is published (in 32-ths, from two columns left of the
/// pixel to two columns right of it; the pixel itself and those left of it in its own row
/// get nothing): 0, 0, 0, 5, 3 / 2, 4, 5, 4, 2 / 0, 2, 3, 2, 0.
pub proof fn lemma_sierra_grid()
    ensures
        row_shares(Sierra.kernel(), 0) == seq![0int, 0, 0, 5, 3],
        row_shares(Sierra.kernel(), 1) == seq![2int, 4, 5, 4, 2],
        row_shares(Sierra.kernel(), 2) == seq![0int, 2, 3, 2, 0],
{
    reveal_with_fuel(share_at, 13);
    let k = Sierra.kernel();
    assert(row_shares(k, 0) =~= seq![0int, 0, 0, 5, 3]);
    assert(row_shares(k, 1) =~= seq![2int, 4, 5, 4, 2]);
    assert(row_shares(k, 2) =~= seq![0int, 2, 3, 2, 0]);
}

/// TwoRowSierra's kernel, row by row as it is published (in 16-ths, from two columns left of the
/// pixel to two columns right of it; the pixel itself and those left of it in its own row
/// get nothing): 0, 0, 0, 4, 3 / 1, 2, 3, 2, 1 / 0, 0, 0, 0, 0.
pub proof fn lemma_two_row_sierra_grid()
    ensures
        row_shares(TwoRowSierra.kernel(), 0) == seq![0int, 0, 0, 4, 3],
        row_shares(TwoRowSierra.kernel(), 1) == seq![1int, 2, 3, 2, 1],
        row_shares(TwoRowSierra.kernel(), 2) == seq![0int, 0, 0, 0, 0],
{
    reveal_with_fuel(share_at, 13);
    let k = TwoRowSierra.kernel();
    assert(row_shares(k, 0) =~= seq![0int, 0, 0, 4, 3]);
    assert(row_shares(k, 1) =~= seq![1int, 2, 3, 2, 1]);
    assert(row_shares(k, 2) =~= seq![0int, 0, 0, 0, 0]);
}

/// SierraLite's kernel, row by row as it is published (in 4-ths, from two columns left of the
/// pixel to two columns right of it; the pixel itself and those left of it in its own row
/// get nothing): 0, 0, 0, 2, 0 / 0, 1, 1, 0, 0 / 0, 0, 0, 0, 0.
pub proof fn lemma_sierra_lite_grid()
    ensures
        row_shares(SierraLite.kernel(), 0) == seq![0int, 0, 0, 2, 0],
        row_shares(SierraLite.kernel(), 1) == seq![0int, 1, 1, 0, 0],
        row_shares(SierraLite.kernel(), 2) == seq![0int, 0, 0, 0, 0],
{
    reveal_with_fuel(share_at, 13);
    let k = SierraLite.kernel();
    assert(row_shares(k, 0) =~= seq![0int, 0, 0, 2, 0]);
    assert(row_shares(k, 1) =~= seq![0int, 1, 1, 0, 0]);
    assert(row_shares(k, 2) =~= seq![0int, 0, 0, 0, 0]);
}

/// Stucki's kernel, row by row as it is published (in 42-ths, from two columns left of the
/// pixel to two columns right of it; the pixel itself and those left of it in its own row
/// get nothing): 0, 0, 0, 8, 4 / 2, 4, 8, 4, 2 / 1, 2, 4, 2, 1.
pub proof fn lemma_stucki_grid()
    ensures
        row_shares(Stucki.kernel(), 0) == seq![0int, 0, 0, 8, 4],
        row_shares(Stucki.kernel(), 1) == seq![2int, 4, 8, 4, 2],
        row_shares(Stucki.kernel(), 2) == seq![1int, 2, 4, 2, 1],
{
    reveal_with_fuel(share_at, 13);
    let k = Stucki.kernel();
    assert(row_shares(k, 0) =~= seq![0int, 0, 0, 8, 4]);
    assert(row_shares(k, 1) =~= seq![2int, 4, 8, 4, 2]);
    assert(row_shares(k, 2) =~= seq![1int, 2, 4, 2, 1]);
}

/// In the current row, no kernel gives the pixel two columns on a larger share than the pixel
/// right next to the current one.
pub proof fn lemma_kernels_favour_the_nearer_pixel()
    ensures
        share_at(Atkinson.kernel(), 0, 1) >= share_at(Atkinson.kernel(), 0, 2),
        share_at(Burkes.kernel(), 0, 1) > share_at(Burkes.kernel(), 0, 2),
        share_at(FloydSteinberg.kernel(), 0, 1) > share_at(FloydSteinberg.kernel(), 0, 2),
        share_at(JarvisJudiceNinke.kernel(), 0, 1) > share_at(JarvisJudiceNinke.kernel(), 0, 2),
        share_at(Sierra.kernel(), 0, 1) > share_at(Sierra.kernel(), 0, 2),
        share_at(TwoRowSierra.kernel(), 0, 1) > share_at(TwoRowSierra.kernel(), 0, 2),
        share_at(SierraLite.kernel(), 0, 1) > share_at(SierraLite.kernel(), 0, 2),
        share_at(Stucki.kernel(), 0, 1) > share_at(Stucki.kernel(), 0, 2),
{
    reveal_with_fuel(share_at, 13);
}

} // verus!
