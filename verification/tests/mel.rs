use fl_caption::mel::{get_mel_bytes, mel_filter_bits, MelError, MelFilterAssets};

fn bank(num_mel_bins: usize, fill: u8) -> Vec<u8> {
    vec![fill; num_mel_bins * 201 * 4]
}

fn assets() -> MelFilterAssets {
    MelFilterAssets::new(bank(80, 1), bank(128, 2)).unwrap()
}

#[test]
fn mel_bytes_for_80_bins() {
    let bytes = get_mel_bytes(80, &assets()).unwrap();
    assert_eq!(bytes.len(), 64320);
    assert_eq!(bytes, bank(80, 1));
}

#[test]
fn mel_bytes_for_128_bins() {
    let bytes = get_mel_bytes(128, &assets()).unwrap();
    assert_eq!(bytes.len(), 102912);
    assert_eq!(bytes, bank(128, 2));
}

#[test]
fn mel_bytes_for_other_bins_is_an_error() {
    assert_eq!(get_mel_bytes(64, &assets()), Err(MelError::UnexpectedNumMelBins(64)));
    assert_eq!(get_mel_bytes(0, &assets()), Err(MelError::UnexpectedNumMelBins(0)));
}

#[test]
fn banks_of_the_wrong_size_are_refused() {
    assert_eq!(
        MelFilterAssets::new(vec![0; 100], bank(128, 0)).err(),
        Some(MelError::BankSize { num_mel_bins: 80, len: 100 })
    );
    assert_eq!(
        MelFilterAssets::new(bank(80, 0), bank(80, 0)).err(),
        Some(MelError::BankSize { num_mel_bins: 128, len: 64320 })
    );
    assert_eq!(
        MelFilterAssets::new(vec![], vec![]).err(),
        Some(MelError::BankSize { num_mel_bins: 80, len: 0 })
    );
}

#[test]
fn mel_words_are_little_endian() {
    let bytes = [0x01, 0x00, 0x00, 0x00, 0x00, 0x00, 0x80, 0x3f, 0x78, 0x56, 0x34, 0x12];
    let words = mel_filter_bits(&bytes);
    assert_eq!(words, vec![1, 0x3f80_0000, 0x1234_5678]);
    assert_eq!(f32::from_bits(words[1]), 1.0f32);
}

#[test]
fn mel_words_of_empty_bank() {
    assert!(mel_filter_bits(&[]).is_empty());
}
