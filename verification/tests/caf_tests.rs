//! End-to-end and component tests for the CAF engine, on synthetic signals:
//! a chirp needle, and haystacks that are delayed, frequency-shifted copies
//! of it.

use caf_rust::codec::{decode_c64, encode_c64, BinaryIO};
use caf_rust::grid::gen_shifts_millihz;
use caf_rust::peak::{find_2d_peak, find_peak};
use caf_rust::shift::apply_freq_shift;
use caf_rust::surface::{
    caf_surface, caf_surface_par, reduce_row, CafRustFFT, CafRustFFTRayon, CafSurface,
    CafSurfaceRow,
};
use caf_rust::xcor::Xcor;
use caf_rust::{CafError, Cpx};

fn c(re: f64, im: f64) -> Cpx {
    Cpx { re: re.to_bits(), im: im.to_bits() }
}

fn re_of(x: &Cpx) -> f64 {
    f64::from_bits(x.re)
}

fn im_of(x: &Cpx) -> f64 {
    f64::from_bits(x.im)
}

/// A complex linear chirp sweeping from `f_start` to `f_end` hertz over
/// `len` samples at rate `fs`.
fn chirp(len: usize, fs: f64, f_start: f64, f_end: f64) -> Vec<Cpx> {
    let mut v = Vec::with_capacity(len);
    let rate = (f_end - f_start) / (len as f64 / fs);
    for n in 0..len {
        let t = n as f64 / fs;
        let phase = 2.0 * std::f64::consts::PI * (f_start * t + 0.5 * rate * t * t);
        v.push(c(phase.cos(), phase.sin()));
    }
    v
}

/// A unit-magnitude pseudo-noise signal with deterministic phases. Unlike a
/// chirp, whose ambiguity surface is a long delay-frequency ridge, a noise
/// signal peaks sharply in both dimensions.
fn noise(len: usize, seed: u64) -> Vec<Cpx> {
    let mut v = Vec::with_capacity(len);
    let mut x = seed;
    for _ in 0..len {
        x = x
            .wrapping_mul(6364136223846793005)
            .wrapping_add(1442695040888963407);
        let phase = (x >> 11) as f64 / (1u64 << 53) as f64 * 2.0 * std::f64::consts::PI;
        v.push(c(phase.cos(), phase.sin()));
    }
    v
}

/// A copy of `needle` delayed by `delay` samples and frequency-shifted by
/// `f0` hertz, truncated to the needle's length: the channel model the CAF
/// search inverts.
fn delay_and_shift(needle: &[Cpx], delay: usize, f0: f64, fs: f64) -> Vec<Cpx> {
    let mut v = Vec::with_capacity(needle.len());
    for n in 0..needle.len() {
        let (re, im) = if n >= delay {
            (re_of(&needle[n - delay]), im_of(&needle[n - delay]))
        } else {
            (0.0, 0.0)
        };
        let theta = 2.0 * std::f64::consts::PI * f0 * (n as f64) / fs;
        let (s, co) = theta.sin_cos();
        v.push(c(re * co - im * s, re * s + im * co));
    }
    v
}

fn max_abs_err(a: &[Cpx], b: &[Cpx]) -> f64 {
    assert_eq!(a.len(), b.len());
    let mut worst: f64 = 0.0;
    for i in 0..a.len() {
        let dr = (re_of(&a[i]) - re_of(&b[i])).abs();
        let di = (im_of(&a[i]) - im_of(&b[i])).abs();
        if dr > worst {
            worst = dr;
        }
        if di > worst {
            worst = di;
        }
    }
    worst
}

// ---- shift grid ----

#[test]
fn test_gen_shifts_exact() {
    let g = gen_shifts_millihz(-100000, 100000, 250);
    assert_eq!(g.len(), 800);
    assert_eq!(g[0], -100000);
    assert_eq!(g[1], -99750);
    assert_eq!(g[799], 99750);

    let g = gen_shifts_millihz(30000, 35000, 50);
    assert_eq!(g.len(), 100);
    assert_eq!(g[0], 30000);
    assert_eq!(g[99], 34950);

    assert_eq!(gen_shifts_millihz(5, 5, 1).len(), 0);
    assert_eq!(gen_shifts_millihz(7, 5, 1).len(), 0);
    assert_eq!(gen_shifts_millihz(5, 6, 10), vec![5]);
}

// ---- frequency shifter ----

#[test]
fn test_zero_shift_identity() {
    // Zero shift must return a bitwise copy, odd bit patterns included.
    let v = vec![
        c(1.5, -2.25),
        c(-0.0, 0.0),
        c(f64::NAN, f64::INFINITY),
        c(1.0e-310, -3.0),
    ];
    let out = apply_freq_shift(&v, 0, 48000);
    assert_eq!(out.len(), v.len());
    for i in 0..v.len() {
        assert_eq!(out[i].re, v[i].re);
        assert_eq!(out[i].im, v[i].im);
    }
}

#[test]
fn test_shift_round_trip() {
    // Shifting by f then by -f recovers the input within 1e-9.
    let v = chirp(256, 48000.0, 1000.0, 5000.0);
    let fwd = apply_freq_shift(&v, 69250, 48000);
    let back = apply_freq_shift(&fwd, -69250, 48000);
    assert!(max_abs_err(&v, &back) < 1e-9);
}

#[test]
fn test_shift_preserves_length_and_magnitude() {
    let v = chirp(100, 48000.0, 500.0, 2000.0);
    let out = apply_freq_shift(&v, 12345, 48000);
    assert_eq!(out.len(), 100);
    for i in 0..100 {
        let m_in = re_of(&v[i]).hypot(im_of(&v[i]));
        let m_out = re_of(&out[i]).hypot(im_of(&out[i]));
        assert!((m_in - m_out).abs() < 1e-12);
    }
}

#[test]
fn test_shift_periodicity() {
    // Shifting by f and by f + k*fs agree within tolerance.
    let fs: u32 = 1000;
    let v = chirp(64, fs as f64, 50.0, 200.0);
    let a = apply_freq_shift(&v, 36000, fs);
    let b = apply_freq_shift(&v, 36000 + (fs as i64) * 1000, fs);
    assert!(max_abs_err(&a, &b) < 1e-9);
}

// ---- cross-correlation kernel ----

#[test]
fn test_xcor_impulse_lag() {
    // Cross-correlating an impulse at d against an impulse at 0 peaks at
    // exactly lag d, with value 1: the lag convention of the kernel.
    let n = 8;
    let d = 3;
    let mut hay = vec![c(0.0, 0.0); n];
    hay[d] = c(1.0, 0.0);
    let mut needle = vec![c(0.0, 0.0); n];
    needle[0] = c(1.0, 0.0);

    let mut xc = Xcor::new(n).unwrap();
    let out = xc.run(&hay, &needle).unwrap();
    assert_eq!(out.len(), n);
    for m in 0..n {
        let expect = if m == d { 1.0 } else { 0.0 };
        assert!((re_of(&out[m]) - expect).abs() < 1e-12);
        assert!(im_of(&out[m]).abs() < 1e-12);
    }
}

#[test]
fn test_xcor_auto_peak() {
    // The auto-correlation of a non-zero vector peaks at index 0.
    let v = chirp(16, 1000.0, 50.0, 400.0);
    let mut xc = Xcor::new(16).unwrap();
    let out = xc.run(&v, &v).unwrap();
    let (_, idx, _) = reduce_row(&out);
    assert_eq!(idx, 0);
}

#[test]
fn test_xcor_repeatable() {
    // The handle is reusable: identical inputs give identical outputs.
    let v = chirp(32, 1000.0, 10.0, 450.0);
    let w = delay_and_shift(&v, 5, 20.0, 1000.0);
    let mut xc = Xcor::new(32).unwrap();
    let out1 = xc.run(&w, &v).unwrap();
    let out2 = xc.run(&w, &v).unwrap();
    for i in 0..32 {
        assert_eq!(out1[i].re, out2[i].re);
        assert_eq!(out1[i].im, out2[i].im);
    }
}

#[test]
fn test_xcor_clone_agrees() {
    let v = chirp(32, 1000.0, 10.0, 450.0);
    let w = delay_and_shift(&v, 7, 0.0, 1000.0);
    let mut xc = Xcor::new(32).unwrap();
    let mut xc2 = xc.clone();
    let out1 = xc.run(&w, &v).unwrap();
    let out2 = xc2.run(&w, &v).unwrap();
    for i in 0..32 {
        assert_eq!(out1[i].re, out2[i].re);
        assert_eq!(out1[i].im, out2[i].im);
    }
}

#[test]
fn test_xcor_new_invalid_length() {
    assert!(matches!(Xcor::new(0), Err(CafError::InvalidLength)));
    assert!(matches!(Xcor::new(3), Err(CafError::InvalidLength)));
    assert!(matches!(Xcor::new(12), Err(CafError::InvalidLength)));
    assert!(Xcor::new(1).is_ok());
    assert!(Xcor::new(1024).is_ok());
}

#[test]
fn test_xcor_length_mismatch() {
    let mut xc = Xcor::new(8).unwrap();
    let four = vec![c(1.0, 0.0); 4];
    let eight = vec![c(1.0, 0.0); 8];
    assert!(matches!(xc.run(&four, &eight), Err(CafError::LengthMismatch)));
    assert!(matches!(xc.run(&eight, &four), Err(CafError::LengthMismatch)));
    assert!(xc.run(&eight, &eight).is_ok());
}

// ---- per-row reducer ----

#[test]
fn test_reduce_row_exact() {
    let v = vec![c(1.0, 0.0), c(0.0, -3.0), c(2.0, 2.0), c(3.0, 0.0)];
    let (mag, idx, val) = reduce_row(&v);
    assert_eq!(mag.len(), 4);
    let expect = [1.0, 9.0, 8.0, 9.0];
    for i in 0..4 {
        assert_eq!(f64::from_bits(mag[i]), expect[i]);
    }
    // First-wins tie-break between indices 1 and 3.
    assert_eq!(idx, 1);
    assert_eq!(f64::from_bits(val), 9.0);
}

#[test]
fn test_reduce_row_scaling_keeps_peak() {
    // Scaling the correlation output by a non-zero constant does not move
    // the peak index.
    let v = chirp(32, 1000.0, 10.0, 450.0);
    let w = delay_and_shift(&v, 11, 0.0, 1000.0);
    let mut xc = Xcor::new(32).unwrap();
    let out = xc.run(&w, &v).unwrap();
    let (_, idx, _) = reduce_row(&out);

    // Multiply every bin by 2 - 2j.
    let scaled: Vec<Cpx> = out
        .iter()
        .map(|z| {
            let (re, im) = (re_of(z), im_of(z));
            c(2.0 * re + 2.0 * im, 2.0 * im - 2.0 * re)
        })
        .collect();
    let (_, idx2, _) = reduce_row(&scaled);
    assert_eq!(idx2, idx);
}

// ---- peak search ----

fn row(freq_millihz: i64, mags: &[f64]) -> CafSurfaceRow {
    let mag: Vec<u64> = mags.iter().map(|m| m.to_bits()).collect();
    let mut idx = 0;
    for i in 1..mags.len() {
        if mags[i] > mags[idx] {
            idx = i;
        }
    }
    CafSurfaceRow {
        freq_millihz,
        xcor_peak_idx: idx,
        xcor_peak_val: mag[idx],
        xcor_mag: mag,
    }
}

#[test]
fn test_find_peak_exact() {
    let surface = vec![
        row(-500, &[1.0, 3.0, 2.0]),
        row(250, &[9.0, 3.0, 2.0]),
        row(750, &[0.5, 8.0, 2.0]),
    ];
    assert_eq!(find_peak(&surface), (250, 0));
}

#[test]
fn test_find_peak_tie_first_wins() {
    let surface = vec![
        row(-500, &[1.0, 7.0, 2.0]),
        row(250, &[7.0, 3.0, 2.0]),
    ];
    assert_eq!(find_peak(&surface), (-500, 1));
}

#[test]
fn test_find_peak_all_zero_first_row_wins() {
    // Even when every peak value is zero, the first maximal row is chosen
    // and its own frequency is reported; only an empty surface falls back
    // to (0, 0).
    let surface = vec![row(-500, &[0.0, 0.0]), row(250, &[0.0, 0.0])];
    assert_eq!(find_peak(&surface), (-500, 0));
    let empty: Vec<CafSurfaceRow> = Vec::new();
    assert_eq!(find_peak(&empty), (0, 0));
}

#[test]
fn test_find_2d_peak_exact() {
    let arr = vec![
        vec![c(1.0, 0.0), c(0.0, 2.0)],
        vec![c(3.0, 0.0), c(0.0, 0.0)],
        vec![c(0.0, -3.0)],
    ];
    // Magnitudes squared: [1, 4], [9, 0], [9]: first maximum is at (1, 0).
    assert_eq!(find_2d_peak(&arr), (1, 0));

    // All-zero magnitudes: the first position wins; with no element at all
    // the fallback (0, 0) is reported.
    let zeros = vec![vec![c(0.0, 0.0); 3]; 2];
    assert_eq!(find_2d_peak(&zeros), (0, 0));
    let no_elements: Vec<Vec<Cpx>> = vec![Vec::new(), Vec::new()];
    assert_eq!(find_2d_peak(&no_elements), (0, 0));
}

// ---- surface builder ----

#[test]
fn test_surface_invalid_length() {
    let a = vec![c(1.0, 0.0); 8];
    let b = vec![c(1.0, 0.0); 4];
    let g = vec![0i64];
    assert!(matches!(caf_surface(&a, &b, &g, 48000), Err(CafError::InvalidLength)));
    let three = vec![c(1.0, 0.0); 3];
    assert!(matches!(caf_surface(&three, &three, &g, 48000), Err(CafError::InvalidLength)));
    let empty: Vec<Cpx> = Vec::new();
    assert!(matches!(caf_surface(&empty, &empty, &g, 48000), Err(CafError::InvalidLength)));
}

#[test]
fn test_surface_row_shapes() {
    // Every row: magnitudes at the padded length 2L, the peak index in
    // range, and the peak value equal to the maximum magnitude there.
    let needle = noise(64, 7);
    let hay = delay_and_shift(&needle, 9, 0.0, 1000.0);
    let grid = gen_shifts_millihz(-2000, 2000, 1000);
    let surface = caf_surface(&needle, &hay, &grid, 1000).unwrap();
    assert_eq!(surface.len(), grid.len());
    for (k, row) in surface.iter().enumerate() {
        assert_eq!(row.freq_millihz, grid[k]);
        assert_eq!(row.xcor_mag.len(), 128);
        assert!(row.xcor_peak_idx < 128);
        assert_eq!(row.xcor_peak_val, row.xcor_mag[row.xcor_peak_idx]);
        let best = row
            .xcor_mag
            .iter()
            .map(|m| f64::from_bits(*m))
            .fold(0.0f64, f64::max);
        assert_eq!(f64::from_bits(row.xcor_peak_val), best);
    }
}

#[test]
fn test_caf_identical_signals_peak_at_zero() {
    let v = noise(256, 11);
    let grid = gen_shifts_millihz(-5000, 5000, 1000);
    let surface = caf_surface(&v, &v, &grid, 1000).unwrap();
    let (freq, lag) = find_peak(&surface);
    assert_eq!(freq, 0);
    assert_eq!(lag, 0);
}

#[test]
fn test_caf_end_to_end() {
    // Haystack = needle delayed 78 samples and shifted +36 Hz at fs = 1000.
    let fs: u32 = 1000;
    let needle = noise(1024, 13);
    let hay = delay_and_shift(&needle, 78, 36.0, fs as f64);
    let grid = gen_shifts_millihz(-50000, 50000, 1000);
    let surface = caf_surface(&needle, &hay, &grid, fs).unwrap();
    let (freq, lag) = find_peak(&surface);
    assert_eq!(freq, 36000);
    assert_eq!(lag, 78);
}

#[test]
fn test_caf_end_to_end_negative_shift() {
    // Haystack = needle delayed 151 samples and shifted -24 Hz.
    let fs: u32 = 1000;
    let needle = noise(1024, 17);
    let hay = delay_and_shift(&needle, 151, -24.0, fs as f64);
    let grid = gen_shifts_millihz(-50000, 50000, 250);
    let surface = caf_surface_par(&needle, &hay, &grid, fs).unwrap();
    let (freq, lag) = find_peak(&surface);
    assert_eq!(freq, -24000);
    assert_eq!(lag, 151);
}

#[test]
fn test_caf_parallel_matches_sequential() {
    let fs: u32 = 1000;
    let needle = noise(256, 19);
    let hay = delay_and_shift(&needle, 33, 8.0, fs as f64);
    let grid = gen_shifts_millihz(-20000, 20000, 1000);
    let seq = caf_surface(&needle, &hay, &grid, fs).unwrap();
    let par = caf_surface_par(&needle, &hay, &grid, fs).unwrap();
    assert_eq!(seq.len(), par.len());
    for k in 0..seq.len() {
        assert_eq!(seq[k].freq_millihz, par[k].freq_millihz);
        assert_eq!(seq[k].xcor_peak_idx, par[k].xcor_peak_idx);
        assert_eq!(seq[k].xcor_peak_val, par[k].xcor_peak_val);
    }
}

#[test]
fn test_strategy_builders_agree() {
    // Both strategy implementations report the same peak.
    let fs: u32 = 1000;
    let needle = noise(256, 29);
    let hay = delay_and_shift(&needle, 21, -5.0, fs as f64);
    let grid = gen_shifts_millihz(-10000, 10000, 1000);
    let one = CafRustFFT::caf_surface(&needle, &hay, &grid, fs).unwrap();
    let par = CafRustFFTRayon::caf_surface(&needle, &hay, &grid, fs).unwrap();
    assert_eq!(find_peak(&one), (-5000, 21));
    assert_eq!(find_peak(&par), (-5000, 21));
}

#[test]
fn test_caf_determinism() {
    // The same inputs twice give the identical (freq, sample_lag).
    let fs: u32 = 1000;
    let needle = noise(512, 23);
    let hay = delay_and_shift(&needle, 42, 17.0, fs as f64);
    let grid = gen_shifts_millihz(-25000, 25000, 1000);
    let s1 = caf_surface_par(&needle, &hay, &grid, fs).unwrap();
    let s2 = caf_surface_par(&needle, &hay, &grid, fs).unwrap();
    assert_eq!(find_peak(&s1), find_peak(&s2));
}

// ---- codecs ----

#[test]
fn test_decode_c64_known_bytes() {
    // 1.0f32 is 0x3F800000, -2.0f32 is 0xC0000000, little-endian.
    let bytes = vec![
        0x00, 0x00, 0x80, 0x3F, 0x00, 0x00, 0x00, 0xC0,
        0x00, 0x00, 0x00, 0x00, 0x00, 0x00, 0x80, 0xBF,
    ];
    let samples = decode_c64(&bytes);
    assert_eq!(samples.len(), 2);
    assert_eq!(re_of(&samples[0]), 1.0);
    assert_eq!(im_of(&samples[0]), -2.0);
    assert_eq!(re_of(&samples[1]), 0.0);
    assert_eq!(im_of(&samples[1]), -1.0);
}

#[test]
fn test_encode_c64_known_bytes() {
    let samples = vec![c(1.0, -2.0)];
    let bytes = encode_c64(&samples);
    assert_eq!(bytes, vec![0x00, 0x00, 0x80, 0x3F, 0x00, 0x00, 0x00, 0xC0]);
}

#[test]
fn test_c64_round_trip() {
    // Values exactly representable in binary32 survive the narrow-widen
    // round trip bit for bit.
    let v = vec![c(1.5, -0.25), c(-3.0, 1024.0), c(0.0, -0.0)];
    let back = decode_c64(&encode_c64(&v));
    assert_eq!(back.len(), v.len());
    for i in 0..v.len() {
        assert_eq!(back[i].re, v[i].re);
        assert_eq!(back[i].im, v[i].im);
    }
}

#[test]
fn test_c64_byte_round_trip() {
    // Writing what was read reproduces the byte image exactly: narrowing
    // an exactly-widened binary32 value returns it unchanged. Groups
    // include +inf, -0.0 and a subnormal.
    let bytes = vec![
        0x00, 0x00, 0x80, 0x7F, 0x00, 0x00, 0x00, 0x80, // +inf, -0.0
        0x01, 0x00, 0x00, 0x00, 0x39, 0x30, 0x00, 0xC2, // subnormal, -32.047
        0xFF, 0xFF, 0x7F, 0x7F, 0x00, 0x00, 0x00, 0xFF, // f32::MAX, -1.7e38
    ];
    assert_eq!(encode_c64(&decode_c64(&bytes)), bytes);
}

#[test]
fn test_write_file_binary_packed_c64() {
    // The on-disk image is the packed binary32 format: eight bytes per
    // sample, each double narrowed.
    let samples = vec![c(1.0, -2.0), c(0.5, 3.0)];
    let bytes = samples.write_file_binary();
    assert_eq!(bytes, encode_c64(&samples));
    assert_eq!(bytes.len(), 16);
    assert_eq!(
        bytes[0..8],
        [0x00, 0x00, 0x80, 0x3F, 0x00, 0x00, 0x00, 0xC0]
    );
}
