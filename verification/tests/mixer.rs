use handy_audio::mixer::mix_samples;

/// The audio mix: samples added, the sum held to [-1.0, 1.0].
fn mix(a: &[f32], b: &[f32]) -> Vec<f32> {
    mix_samples(a, b, 0.0f32, |x: f32, y: f32| (x + y).clamp(-1.0, 1.0))
}

#[test]
fn mix_equal_length() {
    let a = vec![0.5, 0.3, -0.1];
    let b = vec![0.2, 0.1, 0.4];
    let out = mix(&a, &b);
    assert_eq!(out.len(), 3);
    assert!((out[0] - 0.7).abs() < 1e-5);
    assert!((out[1] - 0.4).abs() < 1e-5);
    assert!((out[2] - 0.3).abs() < 1e-5);
}

#[test]
fn mix_a_longer_than_b() {
    let a = vec![0.1, 0.2, 0.3, 0.4];
    let b = vec![0.1, 0.1];
    let out = mix(&a, &b);
    assert_eq!(out.len(), 4);
    assert!((out[2] - 0.3).abs() < 1e-5);
    assert!((out[3] - 0.4).abs() < 1e-5);
}

#[test]
fn mix_clamps_over_1() {
    let a = vec![0.8];
    let b = vec![0.8];
    let out = mix(&a, &b);
    assert!((out[0] - 1.0).abs() < 1e-5);
}

#[test]
fn mix_clamps_under_neg_1() {
    let a = vec![-0.8];
    let b = vec![-0.8];
    let out = mix(&a, &b);
    assert!((out[0] - (-1.0)).abs() < 1e-5);
}

#[test]
fn mix_empty_inputs_returns_empty() {
    let out = mix(&[], &[]);
    assert!(out.is_empty());
}

#[test]
fn mix_one_empty_returns_other() {
    let a = vec![0.5, 0.3];
    let out = mix(&a, &[]);
    assert_eq!(out, a);
}

#[test]
fn mix_b_longer_than_a_pads_a_with_silence() {
    let a = vec![0.25];
    let b = vec![0.5, -0.5, 0.75];
    let out = mix(&a, &b);
    assert_eq!(out.len(), 3);
    assert!((out[0] - 0.75).abs() < 1e-5);
    assert!((out[1] - (-0.5)).abs() < 1e-5);
    assert!((out[2] - 0.75).abs() < 1e-5);
}

#[test]
fn mix_with_integer_samples_uses_the_given_silence() {
    let a: Vec<i32> = vec![1, 2];
    let b: Vec<i32> = vec![10, 20, 30];
    let out = mix_samples(&a, &b, 100, |x: i32, y: i32| x + y);
    assert_eq!(out, vec![11, 22, 130]);
}
