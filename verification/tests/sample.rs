use stm32g4xx_hal::fmac::Sample;

#[test]
fn sample_bits_round_trip() {
    for bits in [0i16, 1, -1, 0x7fff, -0x8000, 3277, -12345] {
        assert_eq!(Sample::from_bits(bits).to_bits(), bits);
    }
}

#[test]
fn sample_word_is_twos_complement() {
    assert_eq!(Sample::from_bits(0).to_word(), 0x0000);
    assert_eq!(Sample::from_bits(1).to_word(), 0x0001);
    assert_eq!(Sample::from_bits(0x7fff).to_word(), 0x7fff);
    assert_eq!(Sample::from_bits(-1).to_word(), 0xffff);
    assert_eq!(Sample::from_bits(-0x8000).to_word(), 0x8000);
}

#[test]
fn sample_from_word_decodes_sign() {
    assert_eq!(Sample::from_word(0x0000).to_bits(), 0);
    assert_eq!(Sample::from_word(0x7fff).to_bits(), 0x7fff);
    assert_eq!(Sample::from_word(0x8000).to_bits(), -0x8000);
    assert_eq!(Sample::from_word(0xffff).to_bits(), -1);
}

#[test]
fn sample_word_round_trip_all_words() {
    for w in 0..=u16::MAX {
        assert_eq!(Sample::from_word(w).to_word(), w);
    }
}
