use multisig::channel::Channel;
use multisig::message::ChannelParams;
use multisig::message::Message;
use multisig::message::WaveShape;
use multisig::processor::Processor;
use std::f64::consts::TAU;

fn kernel(params: &ChannelParams, rate: u32, t: u32) -> u32 {
    let rate = rate as f32 as f64;
    let amp = 10f64.powf(f64::from_bits(params.amplitude_db) / 20.);
    let theta = f64::from_bits(params.phase_degrees).to_radians();
    let w = f64::from_bits(params.frequency) * TAU / rate;
    let p = (t as f64).mul_add(w, theta);
    let form = match params.shape {
        WaveShape::Sine => p.sin(),
        WaveShape::Triangle => match (p / TAU).fract() * 4. {
            f if f < 1. => f,
            f if f < 3. => 2. - f,
            f => f - 4.,
        },
        WaveShape::Square(duty) => {
            if (p / TAU).fract() < f64::from_bits(duty) {
                1.
            } else {
                -1.
            }
        }
        WaveShape::Sawtooth => (p / TAU).fract().mul_add(-2., 1.),
    };
    ((form * amp) as f32).to_bits()
}

fn params(
    shape: WaveShape,
    amplitude_db: f64,
    frequency: f64,
    phase_degrees: f64,
) -> ChannelParams {
    ChannelParams {
        shape,
        amplitude_db: amplitude_db.to_bits(),
        frequency: frequency.to_bits(),
        phase_degrees: phase_degrees.to_bits(),
    }
}

fn samples(block: &[u32]) -> Vec<f32> {
    block.iter().map(|bits| f32::from_bits(*bits)).collect()
}

#[test]
fn two_default_channels_render_the_same_sine() {
    let mut processor = Processor::default();
    let block = samples(processor.process(2, 4, 48000, &kernel));
    assert_eq!(block.len(), 8);
    for k in 0..4 {
        let expected = (TAU * 1000.0 * k as f64 / 48000.0).sin();
        assert!((block[k] as f64 - expected).abs() < 1e-6, "sample {}", k);
        assert!((block[4 + k] as f64 - expected).abs() < 1e-6, "sample {}", 4 + k);
        assert_eq!(block[k].to_bits(), block[4 + k].to_bits());
    }
    assert_eq!(block[0], 0.0);
}

#[test]
fn square_wave_splits_a_cycle_by_its_duty() {
    let mut processor = Processor::default();
    let square = params(WaveShape::Square(0.5f64.to_bits()), 0.0, 100.0, 0.0);
    processor.message(Message::SetParams(0, square));
    let block = samples(processor.process(1, 480, 48000, &kernel));
    let high = block.iter().filter(|s| **s == 1.0).count();
    let low = block.iter().filter(|s| **s == -1.0).count();
    assert_eq!(high, 240);
    assert_eq!(low, 240);
    assert!(block[..240].iter().all(|s| *s == 1.0));
    assert!(block[240..].iter().all(|s| *s == -1.0));
}

#[test]
fn square_wave_with_a_quarter_duty() {
    let mut processor = Processor::default();
    let square = params(WaveShape::Square(0.25f64.to_bits()), 0.0, 125.0, 0.0);
    processor.message(Message::SetParams(0, square));
    let block = samples(processor.process(1, 512, 64000, &kernel));
    assert_eq!(block.iter().filter(|s| **s == 1.0).count(), 128);
    assert_eq!(block.iter().filter(|s| **s == -1.0).count(), 384);
}

#[test]
fn sine_does_not_depend_on_the_block_size() {
    let config = params(WaveShape::Sine, -3.0, 440.0, 30.0);
    let mut whole = Channel::from(config);
    let mut all = [0u32; 100];
    whole.process(&mut all, 44100, &kernel);

    let mut split = Channel::from(config);
    let mut first = [0u32; 10];
    let mut second = [0u32; 90];
    split.process(&mut first, 44100, &kernel);
    split.process(&mut second, 44100, &kernel);

    assert_eq!(&all[..10], &first[..]);
    assert_eq!(&all[10..], &second[..]);
}

#[test]
fn sine_phase_follows_the_sample_counter() {
    let config = params(WaveShape::Sine, 0.0, 250.0, 90.0);
    let mut channel = Channel::from(config);
    let mut block = [0u32; 64];
    channel.process(&mut block, 8000, &kernel);
    for (t, bits) in block.iter().enumerate() {
        let phase = t as f64 * TAU * 250.0 / 8000.0 + std::f64::consts::FRAC_PI_2;
        assert!((f32::from_bits(*bits) as f64 - phase.sin()).abs() < 1e-6, "sample {}", t);
    }
}

#[test]
fn reset_replays_the_first_block() {
    let config = params(WaveShape::Triangle, -6.0, 333.0, 45.0);
    let mut processor = Processor::default();
    processor.message(Message::SetParams(0, config));
    let first = processor.process(1, 64, 48000, &kernel).to_vec();
    let later = processor.process(1, 64, 48000, &kernel).to_vec();
    assert_ne!(first, later);
    processor.message(Message::Reset);
    assert_eq!(processor.channels()[0].params, config);
    let replay = processor.process(1, 64, 48000, &kernel).to_vec();
    assert_eq!(first, replay);
}

#[test]
fn all_shapes_stay_within_one() {
    let shapes = [
        WaveShape::Sine,
        WaveShape::Triangle,
        WaveShape::Square(0.5f64.to_bits()),
        WaveShape::Square(0.1f64.to_bits()),
        WaveShape::Sawtooth,
    ];
    let frequencies = [0.0, 1.0, 440.0, 999.5, 12345.678, 24000.0];
    let phases = [0.0, 17.0, 90.0, 180.0, 359.0, 720.5];
    for shape in shapes {
        for frequency in frequencies {
            for phase in phases {
                let mut channel = Channel::from(params(shape, 0.0, frequency, phase));
                let mut block = [0u32; 256];
                channel.process(&mut block, 48000, &kernel);
                for bits in block {
                    let sample = f32::from_bits(bits);
                    assert!((-1.0..=1.0).contains(&sample), "{:?} {} {}", shape, frequency, phase);
                }
            }
        }
    }
}

#[test]
fn amplitude_grows_with_decibels() {
    let levels = [-60.0, -20.0, -6.0, -0.5, 0.0, 0.5, 6.0, 20.0];
    let mut last = 0.0f32;
    for level in levels {
        let always_high = WaveShape::Square(1.0f64.to_bits());
        let mut channel = Channel::from(params(always_high, level, 100.0, 0.0));
        let mut block = [0u32; 1];
        channel.process(&mut block, 48000, &kernel);
        let gain = f32::from_bits(block[0]);
        assert!(gain > last, "{} dB", level);
        last = gain;
    }
    let mut channel = Channel::from(params(WaveShape::Square(1.0f64.to_bits()), 20.0, 100.0, 0.0));
    let mut block = [0u32; 1];
    channel.process(&mut block, 48000, &kernel);
    assert_eq!(f32::from_bits(block[0]), 10.0);
}

#[test]
fn triangle_and_sawtooth_have_their_corner_values() {
    let mut triangle = Channel::from(params(WaveShape::Triangle, 0.0, 1.0, 0.0));
    let mut block = [0u32; 8];
    triangle.process(&mut block, 8, &kernel);
    assert_eq!(samples(&block), vec![0.0, 0.5, 1.0, 0.5, 0.0, -0.5, -1.0, -0.5]);

    let mut sawtooth = Channel::from(params(WaveShape::Sawtooth, 0.0, 1.0, 0.0));
    let mut block = [0u32; 8];
    sawtooth.process(&mut block, 8, &kernel);
    assert_eq!(samples(&block), vec![1.0, 0.75, 0.5, 0.25, 0.0, -0.25, -0.5, -0.75]);
}

#[test]
fn duty_outside_the_unit_interval_is_always_on_or_off() {
    let mut on = Channel::from(params(WaveShape::Square(1.5f64.to_bits()), 0.0, 100.0, 0.0));
    let mut block = [0u32; 64];
    on.process(&mut block, 48000, &kernel);
    assert!(samples(&block).iter().all(|s| *s == 1.0));

    let mut off = Channel::from(params(WaveShape::Square((-0.5f64).to_bits()), 0.0, 100.0, 0.0));
    let mut block = [0u32; 64];
    off.process(&mut block, 48000, &kernel);
    assert!(samples(&block).iter().all(|s| *s == -1.0));
}
