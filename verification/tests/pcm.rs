use sendspin_vst3::pcm::{decode_pcm_samples, PcmSamples};

fn amplitude(samples: &PcmSamples, index: usize) -> f32 {
    samples.values[index] as f32 / samples.full_scale as f32
}

#[test]
fn decode_pcm_16() {
    let samples = decode_pcm_samples(&[0x00, 0x00, 0xff, 0x7f], 1, 16).expect("decode");
    assert_eq!(samples.values.len(), 2);
    assert!(amplitude(&samples, 0).abs() < 0.0001);
    assert!(amplitude(&samples, 1) > 0.9);
}

#[test]
fn decode_pcm_24_rejects_misaligned_bytes() {
    assert!(decode_pcm_samples(&[1, 2], 2, 24).is_none());
}

#[test]
fn decode_pcm_rejects_frame_mismatch() {
    let bytes = [0_u8; 6];
    assert!(decode_pcm_samples(&bytes, 4, 16).is_none());
}

#[test]
fn decode_pcm_reads_every_depth() {
    let sixteen = decode_pcm_samples(&[0x00, 0x80, 0xff, 0xff], 2, 16).expect("decode");
    assert_eq!((sixteen.full_scale, sixteen.values), (32_768, vec![-32_768, -1]));
    let bytes = [0x00, 0x00, 0x80, 0xff, 0xff, 0x7f, 0x01, 0x02, 0x03];
    let twenty_four = decode_pcm_samples(&bytes, 3, 24).expect("decode");
    assert_eq!(twenty_four.full_scale, 8_388_608);
    assert_eq!(twenty_four.values, vec![-8_388_608, 8_388_607, 0x03_0201]);
    let bytes = [0x00, 0x00, 0x00, 0x80, 0xff, 0xff, 0xff, 0x7f];
    let thirty_two = decode_pcm_samples(&bytes, 1, 32).expect("decode");
    assert_eq!(thirty_two.full_scale, 2_147_483_648);
    assert_eq!(thirty_two.values, vec![i32::MIN, i32::MAX]);
}

#[test]
fn decode_pcm_16_agrees_with_std_on_all_samples() {
    for value in i16::MIN..=i16::MAX {
        let samples = decode_pcm_samples(&value.to_le_bytes(), 1, 16).expect("decode");
        assert_eq!(samples.values, vec![i32::from(value)]);
        assert_eq!(amplitude(&samples, 0), f32::from(value) / 32768.0);
    }
}

#[test]
fn decode_pcm_rejects_other_depths_and_no_channels() {
    assert!(decode_pcm_samples(&[0, 0], 1, 8).is_none());
    assert!(decode_pcm_samples(&[0, 0], 0, 16).is_none());
    assert_eq!(decode_pcm_samples(&[], 0, 16).map(|s| s.values.len()), Some(0));
    assert!(decode_pcm_samples(&[0, 0, 0], 1, 32).is_none());
}
