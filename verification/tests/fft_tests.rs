use fft::{fft, Complex};

fn c(re: f64, im: f64) -> Complex {
    Complex::new(re.to_bits(), im.to_bits())
}

fn re_of(v: &Complex) -> f64 {
    f64::from_bits(v.real)
}

fn im_of(v: &Complex) -> f64 {
    f64::from_bits(v.imag)
}

fn mag_of(v: &Complex) -> f64 {
    f64::from_bits(v.abs())
}

#[test]
fn test_correctness() {
    // Test case 1: Simple signal
    let signal: Vec<Complex> = (0..8)
        .map(|i| c(if i < 4 { 1.0 } else { 0.0 }, 0.0))
        .collect();

    let result = fft(&signal);

    // DC component should be 4
    assert!((re_of(&result[0]) - 4.0).abs() < 1e-10);

    // Test case 2: Impulse
    let impulse: Vec<Complex> = (0..8)
        .map(|i| c(if i == 0 { 1.0 } else { 0.0 }, 0.0))
        .collect();

    let result = fft(&impulse);

    // All bins should be 1
    for val in &result {
        assert!((re_of(val) - 1.0).abs() < 1e-10);
        assert!(im_of(val).abs() < 1e-10);
    }

    // Test case 3: Constant signal
    let constant: Vec<Complex> = vec![c(1.0, 0.0); 8];
    let result = fft(&constant);

    // Only DC component should be non-zero
    assert!((re_of(&result[0]) - 8.0).abs() < 1e-10);
    for i in 1..result.len() {
        assert!(mag_of(&result[i]) < 1e-10);
    }
}

#[test]
fn test_edge_cases() {
    // Empty input
    let empty: Vec<Complex> = vec![];
    let result = fft(&empty);
    assert_eq!(result.len(), 0);

    // Single element
    let single = vec![c(5.0, 0.0)];
    let result = fft(&single);
    assert_eq!(result.len(), 1);
    assert_eq!(result[0].real, 5.0f64.to_bits());

    // Power of 2 length
    let power_of_2 = vec![c(1.0, 0.0), c(0.0, 0.0), c(1.0, 0.0), c(0.0, 0.0)];
    let result = fft(&power_of_2);
    assert_eq!(result.len(), 4);

    // Non-power of 2
    let non_power = vec![c(1.0, 0.0), c(2.0, 0.0), c(3.0, 0.0)];
    let result = fft(&non_power);
    assert_eq!(result.len(), 4);
}

#[test]
fn test_dc_component_is_sum() {
    // Bin 0 equals the sum of all (zero-padded) samples, componentwise.
    // Length 5 exercises the padding path; the appended zeros add nothing.
    let signal = vec![
        c(1.5, -0.25),
        c(-2.0, 3.0),
        c(0.5, 0.125),
        c(4.0, -1.0),
        c(-0.75, 2.5),
    ];
    let sum_re: f64 = signal.iter().map(|v| re_of(v)).sum();
    let sum_im: f64 = signal.iter().map(|v| im_of(v)).sum();

    let result = fft(&signal);
    assert_eq!(result.len(), 8);
    assert!((re_of(&result[0]) - sum_re).abs() < 1e-10);
    assert!((im_of(&result[0]) - sum_im).abs() < 1e-10);
}

#[test]
fn test_impulse_response_amplitude() {
    // An impulse of amplitude A at index 0 gives every bin (A, 0).
    let a = 3.5;
    let impulse: Vec<Complex> = (0..4).map(|i| c(if i == 0 { a } else { 0.0 }, 0.0)).collect();
    let result = fft(&impulse);
    assert_eq!(result.len(), 4);
    for val in &result {
        assert!((re_of(val) - a).abs() < 1e-10);
        assert!(im_of(val).abs() < 1e-10);
    }
}

#[test]
fn test_constant_signal_spectrum() {
    // A constant signal of value A and power-of-two length N concentrates
    // everything in bin 0, which equals (A * N, 0).
    let a = 2.0;
    let n = 4;
    let constant: Vec<Complex> = vec![c(a, 0.0); n];
    let result = fft(&constant);
    assert_eq!(result.len(), n);
    assert!((re_of(&result[0]) - a * n as f64).abs() < 1e-10);
    assert!(im_of(&result[0]).abs() < 1e-10);
    for i in 1..n {
        assert!(re_of(&result[i]).abs() < 1e-10);
        assert!(im_of(&result[i]).abs() < 1e-10);
    }
}

#[test]
fn test_linearity() {
    // transform(a*x + b*y) equals a*transform(x) + b*transform(y), also on a
    // length that forces padding.
    let x = vec![
        c(1.0, 0.5),
        c(-2.0, 1.0),
        c(3.0, -1.5),
        c(0.25, 0.0),
        c(-1.0, 2.0),
        c(0.5, -0.5),
    ];
    let y = vec![
        c(0.75, -1.0),
        c(2.0, 0.25),
        c(-0.5, 1.5),
        c(1.0, -2.0),
        c(0.125, 0.5),
        c(-3.0, 1.0),
    ];
    let a = 2.5;
    let b = -1.5;

    let combined: Vec<Complex> = (0..x.len())
        .map(|i| {
            c(
                a * re_of(&x[i]) + b * re_of(&y[i]),
                a * im_of(&x[i]) + b * im_of(&y[i]),
            )
        })
        .collect();

    let lhs = fft(&combined);
    let fx = fft(&x);
    let fy = fft(&y);
    assert_eq!(lhs.len(), fx.len());
    assert_eq!(lhs.len(), fy.len());
    for i in 0..lhs.len() {
        let rhs_re = a * re_of(&fx[i]) + b * re_of(&fy[i]);
        let rhs_im = a * im_of(&fx[i]) + b * im_of(&fy[i]);
        assert!((re_of(&lhs[i]) - rhs_re).abs() < 1e-9);
        assert!((im_of(&lhs[i]) - rhs_im).abs() < 1e-9);
    }
}

#[test]
fn test_complex_addition() {
    let r = c(1.0, 2.0).add(&c(3.0, 4.0));
    assert_eq!(r, c(4.0, 6.0));
}

#[test]
fn test_complex_subtraction() {
    let r = c(5.0, 7.0).subtract(&c(2.0, 3.0));
    assert_eq!(r, c(3.0, 4.0));
}

#[test]
fn test_complex_multiplication() {
    // (1 + 2i) * (3 + 4i) = -5 + 10i, exactly in binary64.
    let r = c(1.0, 2.0).multiply(&c(3.0, 4.0));
    assert_eq!(r, c(-5.0, 10.0));
}

#[test]
fn test_complex_magnitude() {
    // |3 + 4i| = 5, exactly in binary64.
    assert_eq!(c(3.0, 4.0).abs(), 5.0f64.to_bits());
}
