use vstd::arithmetic::div_mod::{
    lemma_div_is_ordered, lemma_div_multiples_vanish, lemma_hoist_over_denominator,
};
use vstd::arithmetic::mul::lemma_mul_inequality;
use vstd::prelude::*;

use crate::mix::{Mix, MIX_ONE};

verus! {

/// One stereo sample: an ordered (left, right) pair. Sample amplitudes are
/// carried in fixed point, so the crossfade arithmetic is exact.
#[derive(Clone, Copy, Debug, PartialEq, Eq, Structural)]
pub struct StereoFrame {
    pub left: i32,
    pub right: i32,
}

/// The crossfade numerator before rescaling: `main` weighted by
/// `MIX_ONE - mix` plus `aux` weighted by `mix`.
pub open spec fn blend_scaled(main: int, aux: int, mix: int) -> int {
    main * (MIX_ONE as int - mix) + aux * mix
}

/// The crossfaded sample `main * (1 - mix/MIX_ONE) + aux * (mix/MIX_ONE)`,
/// rounded down to the nearest integer.
pub open spec fn blend(main: int, aux: int, mix: int) -> int {
    blend_scaled(main, aux, mix) / (MIX_ONE as int)
}

/// Componentwise crossfade of two stereo frames.
pub open spec fn blended_frame(main: StereoFrame, aux: StereoFrame, mix: int) -> StereoFrame {
    StereoFrame {
        left: blend(main.left as int, aux.left as int, mix) as i32,
        right: blend(main.right as int, aux.right as int, mix) as i32,
    }
}

/// The crossfade never leaves the interval spanned by its two inputs: for any
/// in-range mix coefficient the output lies between `main` and `aux`.
pub proof fn lemma_blend_within_inputs(main: int, aux: int, mix: int)
    requires
        0 <= mix <= MIX_ONE as int,
    ensures
        main <= aux ==> main <= blend(main, aux, mix) <= aux,
        aux <= main ==> aux <= blend(main, aux, mix) <= main,
{
    let d = MIX_ONE as int;
    let lo = if main <= aux { main } else { aux };
    let hi = if main <= aux { aux } else { main };
    lemma_mul_inequality(lo, main, d - mix);
    lemma_mul_inequality(lo, aux, mix);
    lemma_mul_inequality(main, hi, d - mix);
    lemma_mul_inequality(aux, hi, mix);
    assert(lo * (d - mix) + lo * mix == lo * d) by (nonlinear_arith);
    assert(hi * (d - mix) + hi * mix == hi * d) by (nonlinear_arith);
    lemma_div_is_ordered(lo * d, blend_scaled(main, aux, mix), d);
    lemma_div_is_ordered(blend_scaled(main, aux, mix), hi * d, d);
    lemma_div_multiples_vanish(lo, d);
    lemma_div_multiples_vanish(hi, d);
}

/// Identity law: a mix coefficient of zero returns the main input unchanged.
pub proof fn lemma_blend_zero(main: int, aux: int)
    ensures
        blend(main, aux, 0) == main,
{
    let d = MIX_ONE as int;
    assert(blend_scaled(main, aux, 0) == main * d);
    lemma_div_multiples_vanish(main, d);
}

/// Full-substitution law: a mix coefficient of one returns the auxiliary
/// input unchanged.
pub proof fn lemma_blend_one(main: int, aux: int)
    ensures
        blend(main, aux, MIX_ONE as int) == aux,
{
    let d = MIX_ONE as int;
    assert(blend_scaled(main, aux, d) == aux * d);
    lemma_div_multiples_vanish(aux, d);
}

/// Monotonicity law: with the auxiliary sample at or above the main sample,
/// the crossfade is non-decreasing in the mix coefficient.
pub proof fn lemma_blend_monotonic(main: int, aux: int, mix1: int, mix2: int)
    requires
        main <= aux,
        0 <= mix1 <= mix2 <= MIX_ONE as int,
    ensures
        blend(main, aux, mix1) <= blend(main, aux, mix2),
{
    let d = MIX_ONE as int;
    assert(main * (d - mix1) + aux * mix1 == main * d + (aux - main) * mix1) by (nonlinear_arith);
    assert(main * (d - mix2) + aux * mix2 == main * d + (aux - main) * mix2) by (nonlinear_arith);
    lemma_mul_inequality(mix1, mix2, aux - main);
    lemma_div_is_ordered(blend_scaled(main, aux, mix1), blend_scaled(main, aux, mix2), d);
}

/// Crossfades one channel. The samples are shifted into the non-negative
/// range so the rescaling division can be carried out in `u64`, then shifted
/// back; the result is the exact floor of the blended value.
fn blend_sample(main: i32, aux: i32, mix: Mix) -> (out: i32)
    ensures
        out as int == blend(main as int, aux as int, mix.as_int()),
{
    let m: u32 = mix.numer();
    let shifted_main: u64 = ((main as i64) + 2_147_483_648i64) as u64;
    let shifted_aux: u64 = ((aux as i64) + 2_147_483_648i64) as u64;
    proof {
        lemma_mul_inequality(shifted_main as int, 0xFFFF_FFFF, MIX_ONE as int - m as int);
        lemma_mul_inequality(shifted_aux as int, 0xFFFF_FFFF, m as int);
    }
    let scaled: u64 = shifted_main * ((MIX_ONE - m) as u64) + shifted_aux * (m as u64);
    let q: u64 = scaled / (MIX_ONE as u64);
    proof {
        let mo = main as int;
        let ao = aux as int;
        let mi = m as int;
        let d = MIX_ONE as int;
        let off = 0x8000_0000int;
        assert((mo + off) * (d - mi) + (ao + off) * mi == mo * (d - mi) + ao * mi + off * d)
            by (nonlinear_arith);
        assert(scaled as int == blend_scaled(mo, ao, mi) + off * d);
        lemma_hoist_over_denominator(blend_scaled(mo, ao, mi), off, MIX_ONE as nat);
        assert(q as int == blend(mo, ao, mi) + off);
        lemma_blend_within_inputs(mo, ao, mi);
    }
    ((q as i64) - 2_147_483_648i64) as i32
}

/// Crossfades one stereo frame, as one step of the per-sample processing
/// loop: with an auxiliary frame present the output is the componentwise
/// blend; with none, the main frame passes through unchanged.
pub fn process(main: StereoFrame, aux: Option<StereoFrame>, mix: Mix) -> (out: StereoFrame)
    ensures
        (aux matches Some(a) ==> out == blended_frame(main, a, mix.as_int())),
        aux is None ==> out == main,
        mix.as_int() == 0 ==> out == main,
        (aux matches Some(a) ==> (mix.as_int() == MIX_ONE as int ==> out == a)),
{
    match aux {
        Some(a) => {
            let left = blend_sample(main.left, a.left, mix);
            let right = blend_sample(main.right, a.right, mix);
            proof {
                lemma_blend_zero(main.left as int, a.left as int);
                lemma_blend_zero(main.right as int, a.right as int);
                lemma_blend_one(main.left as int, a.left as int);
                lemma_blend_one(main.right as int, a.right as int);
            }
            StereoFrame { left, right }
        },
        None => main,
    }
}

/// Crossfades a whole block in place, one mix coefficient per sample, as the
/// host's processing callback does: each main frame that has an auxiliary
/// frame at the same index is blended with it; main frames past the end of
/// the auxiliary block pass through unchanged, and auxiliary frames past the
/// end of the main block are ignored.
pub fn process_block(main: &mut Vec<StereoFrame>, aux: &Vec<StereoFrame>, mixes: &Vec<Mix>)
    requires
        old(main)@.len() == mixes@.len(),
    ensures
        final(main)@.len() == old(main)@.len(),
        forall|i: int|
            0 <= i < old(main)@.len() ==> #[trigger] final(main)@[i] == (if i < aux@.len() {
                blended_frame(old(main)@[i], aux@[i], mixes@[i].as_int())
            } else {
                old(main)@[i]
            }),
{
    let n: usize = main.len();
    let mut i: usize = 0;
    while i < n
        invariant
            n == old(main)@.len(),
            main@.len() == n,
            mixes@.len() == n,
            i <= n,
            forall|j: int|
                0 <= j < i ==> #[trigger] main@[j] == (if j < aux@.len() {
                    blended_frame(old(main)@[j], aux@[j], mixes@[j].as_int())
                } else {
                    old(main)@[j]
                }),
            forall|j: int| i <= j < n ==> main@[j] == old(main)@[j],
        decreases n - i,
    {
        if i < aux.len() {
            let blended = process(main[i], Some(aux[i]), mixes[i]);
            main[i] = blended;
        }
        i += 1;
    }
}

} // verus!

