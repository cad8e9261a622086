use crate::image::Image;
use vstd::prelude::*;

verus! {

/// Combines a color with the error diffused onto it.
pub trait ErrorCombinator<P> {
    fn combine_error(&self, color: P, error: P) -> P;
}

/// Finds the nearest color that a quantizer allows, and the error made by taking it.
pub trait ColorLookup<P> {
    type Nearest;

    fn get_nearest_color(&self, color: P) -> Self::Nearest;

    fn get_error(&self, color: P, nearest: Self::Nearest) -> P;
}

/// A color lookup that can also take diffused error.
pub trait Quantizer<P, N>: ColorLookup<P, Nearest = N> + ErrorCombinator<P> {

}

impl<P, N, T: ColorLookup<P, Nearest = N> + ErrorCombinator<P>> Quantizer<P, N> for T {

}

/// `out` is what `quant` gives as the nearest color of a clone of `color`.
pub open spec fn nearest_of_clone<P: Clone, Q: ColorLookup<P, Nearest = P>>(
    quant: &Q,
    color: P,
    out: P,
) -> bool {
    exists|c: P| cloned(color, c) && call_ensures(Q::get_nearest_color, (quant, c), out)
}

/// Replaces each pixel with the nearest color that `quant` allows.
pub fn quantize<P: Clone, Q: ColorLookup<P, Nearest = P>>(img: &mut Image<P>, quant: &Q)
    ensures
        final(img).spec_size() == old(img).spec_size(),
        final(img).pixels().len() == old(img).pixels().len(),
        forall|i: int|
            0 <= i < old(img).pixels().len() ==> nearest_of_clone(
                quant,
                old(img).pixels()[i],
                #[trigger] final(img).pixels()[i],
            ),
{
    let data = img.data_mut();
    let n = data.len();
    let ghost mut inputs: Seq<P> = Seq::empty();
    let mut i: usize = 0;
    while i < n
        invariant
            n == data@.len(),
            n == old(img).pixels().len(),
            i <= n,
            inputs.len() == i,
            forall|k: int| 0 <= k < i ==> cloned(old(img).pixels()[k], #[trigger] inputs[k]),
            forall|k: int|
                0 <= k < i ==> call_ensures(
                    Q::get_nearest_color,
                    (quant, inputs[k]),
                    #[trigger] data@[k],
                ),
            forall|k: int| i <= k < n ==> data@[k] == old(img).pixels()[k],
        decreases n - i,
    {
        let c = data[i].clone();
        let nearest = quant.get_nearest_color(c);
        data[i] = nearest;
        proof {
            inputs = inputs.push(c);
        }
        i = i + 1;
    }
    let ghost result = data@;
    assert forall|k: int| 0 <= k < n implies nearest_of_clone(
        quant,
        old(img).pixels()[k],
        #[trigger] final(img).pixels()[k],
    ) by {
        assert(cloned(old(img).pixels()[k], inputs[k]));
        assert(call_ensures(Q::get_nearest_color, (quant, inputs[k]), result[k]));
    }
}

} // verus!
