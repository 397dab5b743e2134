use dictation_capture::capture::{downmix, forward};
use dictation_capture::sample::{F32Bits, NativeSample, SampleFormat};

fn by_float_arithmetic(v: f32) -> i16 {
    (v.clamp(-1.0, 1.0) * i16::MAX as f32) as i16
}

fn convert(v: f32) -> i16 {
    F32Bits(v.to_bits()).to_pcm()
}

#[test]
fn unsigned_midscale_is_zero() {
    assert_eq!(32768u16.to_pcm(), 0);
}

#[test]
fn unsigned_full_scale_bounds() {
    assert_eq!(65535u16.to_pcm(), 32767);
    assert_eq!(0u16.to_pcm(), -32768);
}

#[test]
fn unsigned_neighbours_of_the_origin() {
    assert_eq!(32769u16.to_pcm(), 1);
    assert_eq!(32767u16.to_pcm(), -1);
}

#[test]
fn signed_samples_pass_through() {
    assert_eq!(32767i16.to_pcm(), 32767);
    assert_eq!((-32768i16).to_pcm(), -32768);
    assert_eq!(0i16.to_pcm(), 0);
    assert_eq!((-1234i16).to_pcm(), -1234);
}

#[test]
fn float_full_scale_and_zero() {
    assert_eq!(convert(1.0), 32767);
    assert_eq!(convert(-1.0), -32767);
    assert_eq!(convert(0.0), 0);
    assert_eq!(convert(-0.0), 0);
}

#[test]
fn float_is_clamped_before_scaling() {
    assert_eq!(convert(2.5), 32767);
    assert_eq!(convert(-7.0), -32767);
    assert_eq!(convert(f32::INFINITY), 32767);
    assert_eq!(convert(f32::NEG_INFINITY), -32767);
    assert_eq!(convert(f32::MAX), 32767);
}

#[test]
fn float_nan_becomes_silence() {
    assert_eq!(convert(f32::NAN), 0);
    assert_eq!(F32Bits(0xffc0_0001).to_pcm(), 0);
    assert_eq!(F32Bits(0x7f80_0001).to_pcm(), 0);
}

#[test]
fn float_is_cut_towards_zero() {
    // 0.5 * 32767 = 16383.5
    assert_eq!(convert(0.5), 16383);
    assert_eq!(convert(-0.5), -16383);
    // 0.25 * 32767 = 8191.75
    assert_eq!(convert(0.25), 8191);
    assert_eq!(convert(-0.25), -8191);
    assert_eq!(convert(0.00001), 0);
    assert_eq!(convert(-0.00001), 0);
}

#[test]
fn float_product_is_rounded_as_a_float_before_it_is_cut() {
    // 32769 * 2^-30 times 32767 is 1 - 2^-30, which no float of 24
    // significant bits holds: the product rounds to 1.0.
    let v: f32 = 32769.0 / 1073741824.0;
    assert_eq!(v.to_bits(), 0x3800_0100);
    assert_eq!(by_float_arithmetic(v), 1);
    assert_eq!(convert(v), 1);
    assert_eq!(convert(-v), -1);
}

#[test]
fn float_subnormals_and_tiny_values_become_silence() {
    assert_eq!(F32Bits(1).to_pcm(), 0);
    assert_eq!(F32Bits(0x007f_ffff).to_pcm(), 0);
    assert_eq!(F32Bits(0x0080_0000).to_pcm(), 0);
    assert_eq!(F32Bits(0x8000_0001).to_pcm(), 0);
    assert_eq!(convert(f32::MIN_POSITIVE), 0);
}

#[test]
fn float_just_below_full_scale() {
    let below_one = f32::from_bits(0x3f7f_ffff);
    assert_eq!(by_float_arithmetic(below_one), 32766);
    assert_eq!(convert(below_one), 32766);
    assert_eq!(convert(-below_one), -32766);
}

#[test]
fn float_conversion_agrees_with_float_arithmetic_on_a_sweep_of_all_patterns() {
    let mut bits: u64 = 0;
    let mut checked: u32 = 0;
    while bits <= u32::MAX as u64 {
        let pattern = bits as u32;
        let v = f32::from_bits(pattern);
        assert_eq!(F32Bits(pattern).to_pcm(), by_float_arithmetic(v), "pattern {:#010x}", pattern);
        bits += 4099;
        checked += 1;
    }
    assert!(checked > 1_000_000);
}

#[test]
fn float_conversion_agrees_with_float_arithmetic_near_every_sample_boundary() {
    let mut k: u32 = 1;
    while k <= 32767 {
        let centre = (k as f32 / 32767.0).to_bits();
        let mut pattern = centre - 3;
        while pattern <= centre + 3 {
            let v = f32::from_bits(pattern);
            assert_eq!(F32Bits(pattern).to_pcm(), by_float_arithmetic(v), "pattern {:#010x}", pattern);
            let negative = pattern | 0x8000_0000;
            assert_eq!(
                F32Bits(negative).to_pcm(),
                by_float_arithmetic(f32::from_bits(negative)),
                "pattern {:#010x}",
                negative
            );
            pattern += 1;
        }
        k += 1;
    }
}

#[test]
fn float_conversion_agrees_with_float_arithmetic_on_every_exponent() {
    let fractions: [u32; 9] =
        [0, 1, 2, 0x0000_0100, 0x0040_0000, 0x0055_5555, 0x002a_aaaa, 0x007f_fffe, 0x007f_ffff];
    let mut exponent: u32 = 0;
    while exponent <= 255 {
        for fraction in fractions {
            for sign in [0u32, 0x8000_0000] {
                let pattern = sign | (exponent << 23) | fraction;
                assert_eq!(
                    F32Bits(pattern).to_pcm(),
                    by_float_arithmetic(f32::from_bits(pattern)),
                    "pattern {:#010x}",
                    pattern
                );
            }
        }
        exponent += 1;
    }
}

#[test]
fn every_format_but_unsupported_has_a_rule() {
    assert!(SampleFormat::F32.is_supported());
    assert!(SampleFormat::I16.is_supported());
    assert!(SampleFormat::U16.is_supported());
    assert!(!SampleFormat::Unsupported.is_supported());
}

#[test]
fn downmix_takes_first_channel_of_each_frame() {
    let data: Vec<i16> = vec![1, 100, 2, 200, 3, 300];
    assert_eq!(downmix(&data, 2), vec![1, 2, 3]);
}

#[test]
fn downmix_of_mono_keeps_every_sample() {
    let data: Vec<i16> = vec![5, -6, 7];
    assert_eq!(downmix(&data, 1), vec![5, -6, 7]);
}

#[test]
fn downmix_counts_a_trailing_partial_frame() {
    let data: Vec<u16> = vec![32768, 0, 0, 32769, 0, 0, 32770];
    assert_eq!(downmix(&data, 3), vec![0, 1, 2]);
}

#[test]
fn downmix_of_an_empty_buffer_is_empty() {
    let data: Vec<i16> = Vec::new();
    assert_eq!(downmix(&data, 2), Vec::<i16>::new());
}

#[test]
fn downmix_without_channels_is_empty() {
    let data: Vec<i16> = vec![1, 2, 3];
    assert_eq!(downmix(&data, 0), Vec::<i16>::new());
}

#[test]
fn downmix_with_more_channels_than_samples_is_one_frame() {
    let data: Vec<i16> = vec![9, 8];
    assert_eq!(downmix(&data, 6), vec![9]);
}

#[test]
fn downmix_converts_floats() {
    let data: Vec<F32Bits> = [1.0f32, 0.0, -1.0, 0.0, 0.5, 0.0]
        .iter()
        .map(|v| F32Bits(v.to_bits()))
        .collect();
    assert_eq!(downmix(&data, 2), vec![32767, -32767, 16383]);
}

#[test]
fn forward_queues_the_chunk_for_the_writer() {
    let (tx, rx) = crossbeam_channel::unbounded::<Vec<i16>>();
    let data: Vec<u16> = vec![32768, 1, 65535, 2, 0, 3];
    let delivery = forward(&data, 2, &tx);
    assert_eq!(delivery.samples, 3);
    assert_eq!(delivery.peak, 32768);
    assert!(delivery.queued);
    assert_eq!(rx.try_recv().unwrap(), vec![0, 32767, -32768]);
    assert!(rx.try_recv().is_err());
}

#[test]
fn forward_keeps_the_order_of_the_buffers() {
    let (tx, rx) = crossbeam_channel::unbounded::<Vec<i16>>();
    let first: Vec<i16> = vec![1, 2];
    let second: Vec<i16> = vec![3, 4];
    forward(&first, 1, &tx);
    forward(&second, 1, &tx);
    assert_eq!(rx.recv().unwrap(), vec![1, 2]);
    assert_eq!(rx.recv().unwrap(), vec![3, 4]);
}

#[test]
fn forward_measures_the_chunk() {
    let (tx, _rx) = crossbeam_channel::unbounded::<Vec<i16>>();
    let data: Vec<i16> = vec![3, 9000, -700, 9000, 12, 9000];
    let delivery = forward(&data, 2, &tx);
    assert_eq!(delivery.samples, 3);
    assert_eq!(delivery.peak, 700);
    let nothing: Vec<i16> = Vec::new();
    let delivery = forward(&nothing, 2, &tx);
    assert_eq!(delivery.samples, 0);
    assert_eq!(delivery.peak, 0);
}

#[test]
fn forward_does_not_wait_on_a_full_channel() {
    let (tx, rx) = crossbeam_channel::bounded::<Vec<i16>>(1);
    let data: Vec<i16> = vec![1, 2];
    assert!(forward(&data, 1, &tx).queued);
    // the channel is full and nobody receives: the chunk is dropped
    let delivery = forward(&data, 1, &tx);
    assert_eq!(delivery.samples, 2);
    assert!(!delivery.queued);
    assert_eq!(rx.try_recv().unwrap(), vec![1, 2]);
    assert!(rx.try_recv().is_err());
}

#[test]
fn forward_drops_the_chunk_when_the_writer_is_gone() {
    let (tx, rx) = crossbeam_channel::unbounded::<Vec<i16>>();
    drop(rx);
    let data: Vec<i16> = vec![1, 2, 3, 4];
    let delivery = forward(&data, 2, &tx);
    assert_eq!(delivery.samples, 2);
    assert!(!delivery.queued);
}
