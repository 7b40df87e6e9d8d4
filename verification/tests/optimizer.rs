use lut_extractor::optimizer::narrow_bracket;

#[test]
fn rise_in_first_pair_keeps_leftmost_points() {
    assert_eq!(narrow_bracket(&[true, false, false, false]), (0, 1));
    assert_eq!(narrow_bracket(&[true, true, true, true]), (0, 1));
}

#[test]
fn first_rise_inside_window_straddles_it() {
    assert_eq!(narrow_bracket(&[false, true, false, false]), (0, 2));
    assert_eq!(narrow_bracket(&[false, true, true, true]), (0, 2));
    assert_eq!(narrow_bracket(&[false, false, true, true]), (1, 3));
}

#[test]
fn all_decreasing_keeps_right_half() {
    assert_eq!(narrow_bracket(&[false, false, false, true]), (2, 4));
    assert_eq!(narrow_bracket(&[false, false, false, false]), (2, 4));
}

/// Minimizes a unimodal objective by repeatedly sampling it at five evenly
/// spaced points and narrowing to the pair of points `narrow_bracket` picks.
fn optimize<F: Fn(f64) -> f64>(f: F, range: [f64; 2], iterations: usize) -> f64 {
    let mut range = range;
    for _ in 0..iterations {
        let point = |xi: usize| {
            let n = xi as f64 / 4.0;
            (range[0] * (1.0 - n)) + (range[1] * n)
        };
        let mut rising = [false; 4];
        for (i, r) in rising.iter_mut().enumerate() {
            *r = (f(point(i + 1)) - f(point(i))) >= 0.0;
        }
        let (lo, hi) = narrow_bracket(&rising);
        range = [point(lo), point(hi)];
    }
    (range[0] + range[1]) * 0.5
}

#[test]
fn converges_on_a_parabola() {
    let x = optimize(|x| (x - 3.0) * (x - 3.0), [0.0, 10.0], 100);
    assert!((x - 3.0).abs() < 1e-6);
}

#[test]
fn converges_with_minimum_near_an_end() {
    let x = optimize(|x| (x - 0.125) * (x - 0.125), [0.0, 10.0], 100);
    assert!((x - 0.125).abs() < 1e-6);

    let x = optimize(|x| (x - 9.75) * (x - 9.75), [0.0, 10.0], 100);
    assert!((x - 9.75).abs() < 1e-6);
}

#[test]
fn converges_on_a_v_shape() {
    let x = optimize(|x| (x - 2.5).abs(), [-4.0, 8.0], 100);
    assert!((x - 2.5).abs() < 1e-6);
}
