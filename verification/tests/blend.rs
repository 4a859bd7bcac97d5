use downmixer::engine::{process, process_block, StereoFrame};
use downmixer::mix::{Mix, MIX_ONE};

#[test]
fn mix_zero_returns_main() {
    let main = StereoFrame { left: 12_345, right: -6_789 };
    let aux = StereoFrame { left: 1_000_000, right: 1_000_000 };
    let out = process(main, Some(aux), Mix::zero());
    assert_eq!(out, main);
}

#[test]
fn mix_one_returns_aux() {
    let main = StereoFrame { left: 12_345, right: -6_789 };
    let aux = StereoFrame { left: -42, right: 777 };
    let out = process(main, Some(aux), Mix::one());
    assert_eq!(out, aux);
}

#[test]
fn half_mix_blends_midway() {
    // Full scale (1.0, 1.0) against silence (0.0, 0.0) at a mix of one half
    // lands exactly midway, at (0.5, 0.5) of full scale.
    let full = 1_000_000;
    let main = StereoFrame { left: full, right: full };
    let aux = StereoFrame { left: 0, right: 0 };
    let out = process(main, Some(aux), Mix::new(MIX_ONE / 2));
    assert_eq!(out, StereoFrame { left: full / 2, right: full / 2 });
}

#[test]
fn missing_aux_passes_through() {
    let main = StereoFrame { left: -31_000, right: 29_999 };
    let out = process(main, None, Mix::new(MIX_ONE / 2));
    assert_eq!(out, main);
}

#[test]
fn monotonic_in_mix() {
    // With the auxiliary sample above the main sample on both channels, the
    // output must never decrease as the mix coefficient sweeps upward.
    let main = StereoFrame { left: -5_000, right: 100 };
    let aux = StereoFrame { left: 9_000, right: 3_000 };
    let mut prev = process(main, Some(aux), Mix::zero());
    let mut numer: u32 = 0;
    while numer <= MIX_ONE {
        let out = process(main, Some(aux), Mix::new(numer));
        assert!(out.left >= prev.left);
        assert!(out.right >= prev.right);
        prev = out;
        numer += 61_803;
    }
    let last = process(main, Some(aux), Mix::one());
    assert!(last.left >= prev.left);
    assert!(last.right >= prev.right);
}

#[test]
fn exact_formula_on_negative_samples() {
    // main*(1-mix) + aux*mix = -3*0.75 + 5*0.25 = -1, exactly.
    let main = StereoFrame { left: -3, right: -3 };
    let aux = StereoFrame { left: 5, right: 5 };
    let out = process(main, Some(aux), Mix::new(250_000));
    assert_eq!(out, StereoFrame { left: -1, right: -1 });
}

#[test]
fn rounds_down_toward_negative_infinity() {
    let mid = Mix::new(MIX_ONE / 2);
    // Halfway between 0 and 1 rounds down to 0.
    let up = process(
        StereoFrame { left: 0, right: 0 },
        Some(StereoFrame { left: 1, right: 1 }),
        mid,
    );
    assert_eq!(up, StereoFrame { left: 0, right: 0 });
    // Halfway between 0 and -1 rounds down to -1.
    let down = process(
        StereoFrame { left: 0, right: 0 },
        Some(StereoFrame { left: -1, right: -1 }),
        mid,
    );
    assert_eq!(down, StereoFrame { left: -1, right: -1 });
}

#[test]
fn full_scale_extremes_blend_without_overflow() {
    let main = StereoFrame { left: i32::MIN, right: i32::MAX };
    let aux = StereoFrame { left: i32::MAX, right: i32::MIN };
    let out = process(main, Some(aux), Mix::new(MIX_ONE / 2));
    // (i32::MIN + i32::MAX) / 2 = -0.5, rounded down to -1, on both channels.
    assert_eq!(out, StereoFrame { left: -1, right: -1 });
    let all_main = process(main, Some(aux), Mix::zero());
    assert_eq!(all_main, main);
    let all_aux = process(main, Some(aux), Mix::one());
    assert_eq!(all_aux, aux);
}

#[test]
fn mix_clamps_above_one() {
    assert_eq!(Mix::new(MIX_ONE + 5).numer(), MIX_ONE);
    assert_eq!(Mix::new(u32::MAX).numer(), MIX_ONE);
    assert_eq!(Mix::new(250).numer(), 250);
    assert_eq!(Mix::zero().numer(), 0);
    assert_eq!(Mix::one().numer(), MIX_ONE);
}

#[test]
fn block_blends_each_sample_with_its_own_mix() {
    let mut main = vec![
        StereoFrame { left: 100, right: -100 },
        StereoFrame { left: 100, right: -100 },
        StereoFrame { left: 100, right: -100 },
    ];
    let aux = vec![
        StereoFrame { left: 200, right: 0 },
        StereoFrame { left: 200, right: 0 },
        StereoFrame { left: 200, right: 0 },
    ];
    let mixes = vec![Mix::zero(), Mix::new(MIX_ONE / 2), Mix::one()];
    process_block(&mut main, &aux, &mixes);
    assert_eq!(main[0], StereoFrame { left: 100, right: -100 });
    assert_eq!(main[1], StereoFrame { left: 150, right: -50 });
    assert_eq!(main[2], StereoFrame { left: 200, right: 0 });
}

#[test]
fn block_passes_through_past_aux_end() {
    let mut main = vec![
        StereoFrame { left: 10, right: 20 },
        StereoFrame { left: 30, right: 40 },
        StereoFrame { left: 50, right: 60 },
    ];
    let aux = vec![StereoFrame { left: -10, right: -20 }];
    let mixes = vec![Mix::one(), Mix::one(), Mix::one()];
    process_block(&mut main, &aux, &mixes);
    assert_eq!(main[0], StereoFrame { left: -10, right: -20 });
    assert_eq!(main[1], StereoFrame { left: 30, right: 40 });
    assert_eq!(main[2], StereoFrame { left: 50, right: 60 });
}

#[test]
fn block_ignores_extra_aux_frames() {
    let mut main = vec![StereoFrame { left: 8, right: 8 }];
    let aux = vec![
        StereoFrame { left: 0, right: 0 },
        StereoFrame { left: 1_000, right: 1_000 },
        StereoFrame { left: 2_000, right: 2_000 },
    ];
    let mixes = vec![Mix::one()];
    process_block(&mut main, &aux, &mixes);
    assert_eq!(main.len(), 1);
    assert_eq!(main[0], StereoFrame { left: 0, right: 0 });
}

#[test]
fn empty_block_stays_empty() {
    let mut main: Vec<StereoFrame> = vec![];
    let aux: Vec<StereoFrame> = vec![];
    let mixes: Vec<Mix> = vec![];
    process_block(&mut main, &aux, &mixes);
    assert!(main.is_empty());
}
