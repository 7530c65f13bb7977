use band_noise::noise::{FillError, Noise, Setup};
use rand::Rng;
use rustfft::num_complex::Complex32;
use rustfft::{Fft, FftPlanner};
use std::sync::Arc;

/// A noise source together with the transforms that it leaves to its caller.
struct Stream {
    core: Noise<Complex32>,
    forward: Option<Arc<dyn Fft<f32>>>,
    inverse: Option<Arc<dyn Fft<f32>>>,
    plans_built: usize,
}

impl Stream {
    fn new(sample_rate: u32) -> Stream {
        Stream {
            core: Noise::new(sample_rate, Complex32::new(0.0, 0.0)),
            forward: None,
            inverse: None,
            plans_built: 0,
        }
    }

    /// One period: `samples` gives the real part of each input sample, and
    /// `masked` says whether the passband masks are laid over the spectrum.
    fn period(
        &mut self,
        output: &mut [f32],
        mut samples: impl FnMut(usize) -> f32,
        masked: bool,
    ) -> Result<(), FillError> {
        let frames = output.len();
        if self.core.configure(frames)? == Setup::Created {
            let mut planner: FftPlanner<f32> = FftPlanner::new();
            self.forward = Some(planner.plan_fft_forward(frames));
            self.inverse = Some(planner.plan_fft_inverse(frames));
            self.plans_built += 1;
        }
        let forward = self.forward.as_ref().unwrap();
        let inverse = self.inverse.as_ref().unwrap();
        assert!(forward.get_inplace_scratch_len() <= frames);
        assert!(inverse.get_inplace_scratch_len() <= frames);
        {
            let (buffer, scratch) = self.core.buffers();
            for (i, v) in buffer.iter_mut().enumerate() {
                *v = Complex32::new(samples(i), 0.0);
            }
            forward.process_with_scratch(buffer, scratch);
        }
        if masked {
            self.core.band_limit();
        }
        let (buffer, scratch) = self.core.buffers();
        inverse.process_with_scratch(buffer, scratch);
        let size = frames as f32;
        for (out, noise) in output.iter_mut().zip(buffer.iter()) {
            *out += noise.re / size;
        }
        self.core.advance();
        Ok(())
    }
}

fn tone(hz: f32, sample_rate: f32, i: usize) -> f32 {
    (std::f32::consts::TAU * hz * i as f32 / sample_rate).sin()
}

fn variance(signal: &[f32]) -> f64 {
    let n = signal.len() as f64;
    let mean = signal.iter().map(|&v| v as f64).sum::<f64>() / n;
    signal.iter().map(|&v| (v as f64 - mean) * (v as f64 - mean)).sum::<f64>() / n
}

#[test]
fn forward_then_inverse_restores_an_unmasked_signal() {
    for &frames in &[1usize, 2, 7, 64, 441, 480, 1024] {
        let known: Vec<f32> = (0..frames).map(|i| ((i * 37 % 101) as f32 - 50.0) / 50.0).collect();
        let mut stream = Stream::new(48_000);
        let mut output = vec![0.0f32; frames];
        assert_eq!(stream.period(&mut output, |i| known[i], false), Ok(()));
        for i in 0..frames {
            assert!((output[i] - known[i]).abs() < 1e-4, "{} frames, sample {}", frames, i);
        }
    }
}

#[test]
fn a_period_adds_to_what_the_output_holds() {
    let frames = 480usize;
    let input: Vec<f32> = (0..frames).map(|i| tone(500.0, 48_000.0, i)).collect();
    let mut clean = vec![0.0f32; frames];
    let mut stream = Stream::new(48_000);
    assert_eq!(stream.period(&mut clean, |i| input[i], true), Ok(()));
    assert!(clean.iter().any(|&v| v.abs() > 0.5));

    let mut offset = vec![0.25f32; frames];
    let mut stream = Stream::new(48_000);
    assert_eq!(stream.period(&mut offset, |i| input[i], true), Ok(()));
    for i in 0..frames {
        assert_eq!(offset[i], 0.25 + clean[i], "sample {}", i);
    }
}

#[test]
fn a_tone_in_the_passband_comes_through() {
    // 480 frames at 48 kHz: bin i is at i * 100 Hz, and 500 Hz is bin 5.
    let frames = 480usize;
    let mut stream = Stream::new(48_000);
    let mut output = vec![0.0f32; frames];
    assert_eq!(stream.period(&mut output, |i| tone(500.0, 48_000.0, i), true), Ok(()));
    for i in 0..frames {
        assert!((output[i] - tone(500.0, 48_000.0, i)).abs() < 1e-3, "sample {}", i);
    }
}

#[test]
fn a_tone_outside_the_passband_is_removed() {
    let frames = 480usize;
    for &hz in &[0.0f32, 1000.0, 5000.0, 24_000.0] {
        let mut stream = Stream::new(48_000);
        let mut output = vec![0.0f32; frames];
        let input = |i: usize| if hz == 0.0 { 1.0 } else { tone(hz, 48_000.0, i) + 0.5 };
        assert_eq!(stream.period(&mut output, input, true), Ok(()));
        for i in 0..frames {
            assert!(output[i].abs() < 1e-3, "{} Hz, sample {}", hz, i);
        }
    }
}

#[test]
fn tones_exactly_on_the_cutoffs_come_through() {
    let frames = 480usize;
    for &hz in &[100.0f32, 900.0] {
        let mut stream = Stream::new(48_000);
        let mut output = vec![0.0f32; frames];
        assert_eq!(stream.period(&mut output, |i| tone(hz, 48_000.0, i), true), Ok(()));
        for i in 0..frames {
            assert!((output[i] - tone(hz, 48_000.0, i)).abs() < 1e-3, "{} Hz, sample {}", hz, i);
        }
    }
}

#[test]
fn noise_has_no_energy_outside_the_passband() {
    let frames = 480usize;
    let mut rng = rand::rng();
    let mut stream = Stream::new(48_000);
    let mut planner: FftPlanner<f32> = FftPlanner::new();
    let analysis = planner.plan_fft_forward(frames);
    for _ in 0..10 {
        let mut output = vec![0.0f32; frames];
        assert_eq!(stream.period(&mut output, |_| rng.random_range(-1.0f32..1.0), true), Ok(()));
        let mut spectrum: Vec<Complex32> =
            output.iter().map(|&v| Complex32::new(v, 0.0)).collect();
        analysis.process(&mut spectrum);
        let mut inside = 0.0f32;
        for (i, bin) in spectrum.iter().enumerate() {
            if (1..=9).contains(&i) || (471..=479).contains(&i) {
                inside += bin.norm();
            } else {
                assert!(bin.norm() < 1e-3, "bin {} holds {}", i, bin.norm());
            }
        }
        assert!(inside > 1.0);
    }
}

#[test]
fn the_level_of_the_noise_is_stable_from_period_to_period() {
    // 4800 frames at 48 kHz: 162 of the 4800 bins are in the passband, and
    // uniform samples in [-1, 1) have the variance 1/3.
    let frames = 4800usize;
    let expected = (1.0 / 3.0) * 162.0 / 4800.0;
    let mut rng = rand::rng();
    let mut stream = Stream::new(48_000);
    for period in 0..40 {
        let mut output = vec![0.0f32; frames];
        assert_eq!(stream.period(&mut output, |_| rng.random_range(-1.0f32..1.0), true), Ok(()));
        let level = variance(&output);
        assert!(level > 0.5 * expected && level < 2.0 * expected, "period {}: {}", period, level);
        assert!(output.iter().all(|v| v.is_finite() && v.abs() < 1.0));
    }
    assert_eq!(stream.core.offset(), 40 * 4800);
}

#[test]
fn transforms_are_planned_once() {
    let mut stream = Stream::new(48_000);
    let mut output = vec![0.0f32; 256];
    for _ in 0..4 {
        assert_eq!(stream.period(&mut output, |i| tone(440.0, 48_000.0, i), true), Ok(()));
    }
    assert_eq!(stream.plans_built, 1);
    assert_eq!(stream.core.frame_length(), Some(256));
    assert_eq!(stream.core.offset(), 1024);
}

#[test]
fn a_period_of_another_length_leaves_the_output_alone() {
    let mut stream = Stream::new(48_000);
    let mut output = vec![0.0f32; 256];
    assert_eq!(stream.period(&mut output, |i| tone(440.0, 48_000.0, i), true), Ok(()));
    let mut longer = vec![0.5f32; 512];
    assert_eq!(
        stream.period(&mut longer, |i| tone(440.0, 48_000.0, i), true),
        Err(FillError::LengthMismatch)
    );
    assert_eq!(longer, vec![0.5f32; 512]);
    let mut empty: Vec<f32> = Vec::new();
    assert_eq!(stream.period(&mut empty, |_| 0.0, true), Err(FillError::EmptyBuffer));
    assert_eq!(stream.plans_built, 1);
    assert_eq!(stream.core.offset(), 256);
    assert_eq!(stream.period(&mut output, |i| tone(440.0, 48_000.0, i), true), Ok(()));
    assert_eq!(stream.core.offset(), 512);
}
