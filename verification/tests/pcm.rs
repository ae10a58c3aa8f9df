use ma5_native::RenderedPcm;
use ma5_native::pcm::append_interleaved;

fn pcm(samples: Vec<i16>) -> RenderedPcm {
    RenderedPcm { sample_rate: 48_000, samples }
}

#[test]
fn frames_counts_stereo_pairs() {
    assert_eq!(pcm(vec![1, 2, 3, 4, 5, 6]).frames(), 3);
    assert_eq!(pcm(vec![]).frames(), 0);
    assert_eq!(pcm(vec![7]).frames(), 0);
}

#[test]
fn peak_is_largest_magnitude() {
    assert_eq!(pcm(vec![3, -7, 5, 0]).peak(), 7);
    assert_eq!(pcm(vec![100, 99]).peak(), 100);
}

#[test]
fn peak_of_nothing_is_zero() {
    assert_eq!(pcm(vec![]).peak(), 0);
    assert_eq!(pcm(vec![0, 0]).peak(), 0);
}

#[test]
fn peak_of_most_negative_sample() {
    assert_eq!(pcm(vec![i16::MIN, i16::MAX]).peak(), 32768);
    assert_eq!(pcm(vec![i16::MAX]).peak(), 32767);
}

#[test]
fn le_bytes_are_little_endian_pairs() {
    let p = pcm(vec![0x1234, -1, 0, i16::MIN]);
    assert_eq!(p.to_le_bytes(), vec![0x34, 0x12, 0xff, 0xff, 0x00, 0x00, 0x00, 0x80]);
    let mut expected = Vec::new();
    for s in &p.samples {
        expected.extend_from_slice(&s.to_le_bytes());
    }
    assert_eq!(p.to_le_bytes(), expected);
}

#[test]
fn interleaving_alternates_channels() {
    let mut samples = vec![9];
    append_interleaved(&mut samples, &vec![1, 2, 3], &vec![-1, -2, -3]);
    assert_eq!(samples, vec![9, 1, -1, 2, -2, 3, -3]);
}
