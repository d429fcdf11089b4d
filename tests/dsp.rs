use dsp::error::DspError;
use dsp::fft::ForwardFFT;
use dsp::ratio::Ratio;
use dsp::signal::Signal;
use dsp::spectrum::Spectrum;
use dsp::window::{Weight, Window, WindowShape};

const SHAPES: [WindowShape; 7] = [
    WindowShape::Rectangular,
    WindowShape::Triangular,
    WindowShape::Welch,
    WindowShape::Sine,
    WindowShape::Hann,
    WindowShape::Hamming,
    WindowShape::Blackman,
];

fn eval_f32(shape: WindowShape, w: Weight) -> f32 {
    let pi = std::f32::consts::PI;
    match w {
        Weight::Exact(q) => q.num as f32 / q.den as f32,
        Weight::Phase(q) => {
            let t = q.num as f32 / q.den as f32;
            match shape {
                WindowShape::Sine => (pi * t).sin(),
                WindowShape::Hann => 0.5 * (1.0 - (2.0 * pi * t).cos()),
                WindowShape::Hamming => 0.54 - 0.46 * (2.0 * pi * t).cos(),
                _ => 0.42 - 0.5 * (2.0 * pi * t).cos() + 0.08 * (4.0 * pi * t).cos(),
            }
        }
    }
}

fn window_f32(shape: WindowShape, width: usize, offset: usize, len: usize) -> Result<Window<f32>, DspError> {
    Window::make(shape, width, offset, len, move |w: Weight| eval_f32(shape, w))
}

#[derive(Clone, Copy, Debug)]
struct Complex {
    re: f64,
    im: f64,
}

/// Radix-2 butterflies over input already in bit-reversed order.
fn butterflies(v: Vec<f32>) -> Vec<Complex> {
    let n = v.len();
    let mut a: Vec<Complex> = v.iter().map(|&x| Complex { re: x as f64, im: 0.0 }).collect();
    let mut size = 2;
    while size <= n {
        let half = size / 2;
        for start in (0..n).step_by(size) {
            for j in 0..half {
                let ang = -2.0 * std::f64::consts::PI * j as f64 / size as f64;
                let (wr, wi) = (ang.cos(), ang.sin());
                let x = a[start + j];
                let y = a[start + j + half];
                let t = Complex { re: y.re * wr - y.im * wi, im: y.re * wi + y.im * wr };
                a[start + j] = Complex { re: x.re + t.re, im: x.im + t.im };
                a[start + j + half] = Complex { re: x.re - t.re, im: x.im - t.im };
            }
        }
        size *= 2;
    }
    a
}

fn magnitude(c: &Complex) -> f32 {
    (c.re * c.re + c.im * c.im).sqrt() as f32
}

fn peak_freq_hz(spectrum: &Spectrum<Complex>) -> f64 {
    let mut mags = vec![0.0f32; spectrum.len()];
    spectrum.to_real(&mut mags, magnitude).unwrap();
    let mut best = 0;
    for i in 0..mags.len() / 2 {
        if mags[i] > mags[best] {
            best = i;
        }
    }
    let q = spectrum.item_freq(best);
    q.num as f64 / q.den as f64
}

fn sine(freq: f64, rate: usize, n: usize) -> Vec<f32> {
    (0..n).map(|i| (2.0 * std::f64::consts::PI * freq * i as f64 / rate as f64).sin() as f32).collect()
}

#[test]
fn window_len_is_window_length_for_every_shape() {
    for shape in SHAPES {
        for (width, offset, len) in [(1, 0, 1), (3, 2, 10), (8, 0, 8), (5, 5, 10)] {
            let w = window_f32(shape, width, offset, len).unwrap();
            assert_eq!(w.len(), len);
            assert_eq!(w.coefficients().len(), len);
        }
    }
}

#[test]
fn rectangular_weights() {
    let w = window_f32(WindowShape::Rectangular, 3, 2, 10).unwrap();
    let expected = [0.0, 0.0, 1.0, 1.0, 1.0, 0.0, 0.0, 0.0, 0.0, 0.0];
    assert_eq!(w.coefficients().as_slice(), &expected);
    assert_eq!(w.weight_of(3), Weight::Exact(Ratio { num: 1, den: 1 }));
    assert_eq!(w.weight_of(5), Weight::Exact(Ratio { num: 0, den: 1 }));
    assert!(w.in_span(2) && w.in_span(4) && !w.in_span(1) && !w.in_span(5));
}

#[test]
fn hann_width_eight_phases_and_symmetry() {
    let w = window_f32(WindowShape::Hann, 8, 0, 8).unwrap();
    let c = w.coefficients();
    assert!(c[0].abs() < 1e-6);
    assert_eq!(w.weight_of(7), Weight::Phase(Ratio { num: 7, den: 8 }));
    for k in 1..8 {
        assert!((c[k] - c[8 - k]).abs() < 1e-6);
    }
    assert!((c[4] - 1.0).abs() < 1e-6);
}

#[test]
fn triangular_and_welch_exact_weights() {
    let t = window_f32(WindowShape::Triangular, 4, 1, 6).unwrap();
    assert_eq!(t.weight_of(0), Weight::Exact(Ratio { num: 0, den: 1 }));
    assert_eq!(t.weight_of(1), Weight::Exact(Ratio { num: 0, den: 4 }));
    assert_eq!(t.weight_of(2), Weight::Exact(Ratio { num: 2, den: 4 }));
    assert_eq!(t.weight_of(3), Weight::Exact(Ratio { num: 4, den: 4 }));
    assert_eq!(t.weight_of(4), Weight::Exact(Ratio { num: 2, den: 4 }));
    let w = window_f32(WindowShape::Welch, 4, 0, 4).unwrap();
    assert_eq!(w.weight_of(1), Weight::Exact(Ratio { num: 12, den: 16 }));
    assert_eq!(w.weight_of(2), Weight::Exact(Ratio { num: 16, den: 16 }));
    assert_eq!(w.coefficients().as_slice(), &[0.0, 0.75, 1.0, 0.75]);
}

#[test]
fn make_rejects_bad_spans() {
    for (width, offset, len) in [(0, 0, 4), (1, 0, 0), (3, 2, 4), (1, usize::MAX, 4), (5, 0, 4)] {
        assert!(matches!(
            window_f32(WindowShape::Hann, width, offset, len),
            Err(DspError::InvalidParameter)
        ));
    }
}

#[test]
fn apply_all_ones_gives_coefficients() {
    for shape in SHAPES {
        let w = window_f32(shape, 5, 2, 9).unwrap();
        let input = vec![1.0f32; 9];
        let mut output = vec![7.0f32; 9];
        w.apply(&input, &mut output, |a: &f32, b: &f32| a * b).unwrap();
        assert_eq!(&output, w.coefficients());
    }
}

#[test]
fn apply_length_mismatch_leaves_output() {
    let w = window_f32(WindowShape::Hamming, 4, 0, 4).unwrap();
    let mut output = vec![3.0f32; 4];
    let r = w.apply(&vec![1.0; 3], &mut output, |a: &f32, b: &f32| a * b);
    assert_eq!(r, Err(DspError::LengthMismatch));
    assert_eq!(output, vec![3.0; 4]);
    let mut short = vec![3.0f32; 2];
    assert_eq!(w.apply(&vec![1.0; 4], &mut short, |a: &f32, b: &f32| a * b), Err(DspError::LengthMismatch));
    assert_eq!(short, vec![3.0; 2]);
}

#[test]
fn hann_four_end_to_end() {
    let w = window_f32(WindowShape::Hann, 4, 0, 4).unwrap();
    let mut output = vec![0.0f32; 4];
    w.apply(&vec![1.0; 4], &mut output, |a: &f32, b: &f32| a * b).unwrap();
    assert_eq!(&output, w.coefficients());
    let expected = [0.0f32, 0.5, 1.0, 0.5];
    for i in 0..4 {
        assert!((output[i] - expected[i]).abs() < 1e-6);
    }
    assert!((output[1] - output[3]).abs() < 1e-6);
}

#[test]
fn rescale_scales_each_sample_and_keeps_rate() {
    let s = Signal::new(vec![1.0f32, -2.5, 0.25, 3.0], 8000).unwrap();
    let doubled = s.rescale(|x: &f32| 2.0 * x);
    assert_eq!(doubled.sample_rate(), 8000);
    for i in 0..4 {
        assert_eq!(doubled.samples()[i], 2.0 * s.samples()[i]);
    }
    let zero = s.rescale(|x: &f32| 0.0 * x);
    assert!(zero.samples().iter().all(|&x| x == 0.0));
    assert_eq!(zero.len(), 4);
    let inverted = s.rescale(|x: &f32| -1.0 * x);
    assert_eq!(inverted.samples(), &vec![-1.0f32, 2.5, -0.25, -3.0]);
}

#[test]
fn signal_rate_must_be_positive() {
    assert!(matches!(Signal::new(vec![1.0f32], 0), Err(DspError::InvalidParameter)));
    assert!(matches!(Signal::<f32>::empty(0), Err(DspError::InvalidParameter)));
    let e = Signal::<f32>::empty(44100).unwrap();
    assert_eq!(e.len(), 0);
    assert_eq!(e.sample_rate(), 44100);
}

#[test]
fn plan_sizes() {
    for n in [0usize, 3, 12, 1000, usize::MAX] {
        assert!(matches!(ForwardFFT::new(n), Err(DspError::InvalidParameter)));
    }
    for n in [1usize, 2, 8, 1024] {
        let p = ForwardFFT::new(n).unwrap();
        assert_eq!(p.sample_size(), n);
        assert_eq!(p.real_output_len(), n / 2 + 1);
    }
}

#[test]
fn permute_is_bit_reversal() {
    let p = ForwardFFT::new(8).unwrap();
    let v: Vec<u32> = (0..8).collect();
    assert_eq!(p.permute(&v).unwrap(), vec![0, 4, 2, 6, 1, 5, 3, 7]);
    assert_eq!(p.permute(&vec![0u32; 7]), Err(DspError::LengthMismatch));
}

#[test]
fn sine_500_peak() {
    let signal = Signal::new(sine(500.0, 8000, 1024), 8000).unwrap();
    let plan = ForwardFFT::new(1024).unwrap();
    let spectrum = plan.process(&signal, butterflies).unwrap();
    assert_eq!(spectrum.len(), 1024);
    assert_eq!(spectrum.sample_rate(), 8000);
    assert!((peak_freq_hz(&spectrum) - 500.0).abs() <= 8000.0 / 1024.0);
}

#[test]
fn sine_440_peak() {
    let signal = Signal::new(sine(440.0, 44100, 1024), 44100).unwrap();
    let spectrum = ForwardFFT::new(1024).unwrap().process(&signal, butterflies).unwrap();
    assert!((peak_freq_hz(&spectrum) - 440.0).abs() <= 44100.0 / 1024.0);
}

#[test]
fn process_length_mismatch() {
    let signal = Signal::new(vec![0.0f32; 1000], 8000).unwrap();
    let plan = ForwardFFT::new(1024).unwrap();
    assert!(matches!(plan.process(&signal, butterflies), Err(DspError::LengthMismatch)));
}

fn real_magnitudes(v: Vec<f32>) -> Vec<f32> {
    let n = v.len();
    butterflies(v).iter().take(n / 2 + 1).map(magnitude).collect()
}

#[test]
fn process_real_mismatch_leaves_output() {
    let plan = ForwardFFT::new(8).unwrap();
    let mut output = vec![9.0f32; 5];
    assert_eq!(plan.process_real(&vec![1.0; 7], &mut output, real_magnitudes), Err(DspError::LengthMismatch));
    assert_eq!(output, vec![9.0; 5]);
    let mut wrong = vec![9.0f32; 8];
    assert_eq!(plan.process_real(&vec![1.0; 8], &mut wrong, real_magnitudes), Err(DspError::LengthMismatch));
    assert_eq!(wrong, vec![9.0; 8]);
}

#[test]
fn process_real_dc_input() {
    let plan = ForwardFFT::new(8).unwrap();
    let mut output = vec![0.0f32; 5];
    plan.process_real(&vec![1.0; 8], &mut output, real_magnitudes).unwrap();
    assert!((output[0] - 8.0).abs() < 1e-5);
    for &x in &output[1..] {
        assert!(x.abs() < 1e-5);
    }
}

#[test]
fn item_freq_values_and_wrap() {
    let signal = Signal::new(vec![0.0f32; 1024], 44100).unwrap();
    let spectrum = ForwardFFT::new(1024).unwrap().process(&signal, butterflies).unwrap();
    assert_eq!(spectrum.item_freq(10), Ratio { num: 441000, den: 1024 });
    assert_eq!(spectrum.item_freq(0), Ratio { num: 0, den: 1024 });
    for k in [0usize, 1, 10, 1023, 5000] {
        assert_eq!(spectrum.item_freq(1024 + k), spectrum.item_freq(k));
    }
    assert_eq!(spectrum.item_freq_checked(10), Some(Ratio { num: 441000, den: 1024 }));
    assert_eq!(spectrum.item_freq_checked(1024), None);
    assert_eq!(spectrum.max_freq(), Ratio { num: 44100, den: 2 });
}

#[test]
fn to_real_length_mismatch_leaves_output() {
    let signal = Signal::new(vec![1.0f32; 4], 100).unwrap();
    let spectrum = ForwardFFT::new(4).unwrap().process(&signal, butterflies).unwrap();
    let mut out = vec![5.0f32; 3];
    assert_eq!(spectrum.to_real(&mut out, magnitude), Err(DspError::LengthMismatch));
    assert_eq!(out, vec![5.0; 3]);
    let mut ok = vec![0.0f32; 4];
    spectrum.to_real(&mut ok, magnitude).unwrap();
    assert!((ok[0] - 4.0).abs() < 1e-5 && ok[1].abs() < 1e-5);
}

#[test]
fn permute_twice_gives_input_back() {
    let p = ForwardFFT::new(16).unwrap();
    let v: Vec<u32> = (100..116).collect();
    let once = p.permute(&v).unwrap();
    assert_ne!(once, v);
    assert_eq!(p.permute(&once).unwrap(), v);
}
