#[test]
fn level_level2u32() {
    let mut tmp: u32 = niffler::Level::One.into();
    assert_eq!(tmp, 1);

    tmp = niffler::Level::Two.into();
    assert_eq!(tmp, 2);

    tmp = niffler::Level::Three.into();
    assert_eq!(tmp, 3);

    tmp = niffler::Level::Four.into();
    assert_eq!(tmp, 4);

    tmp = niffler::Level::Five.into();
    assert_eq!(tmp, 5);

    tmp = niffler::Level::Six.into();
    assert_eq!(tmp, 6);

    tmp = niffler::Level::Seven.into();
    assert_eq!(tmp, 7);

    tmp = niffler::Level::Eight.into();
    assert_eq!(tmp, 8);

    tmp = niffler::Level::Nine.into();
    assert_eq!(tmp, 9);

    tmp = niffler::Level::Ten.into();
    assert_eq!(tmp, 10);

    tmp = niffler::Level::Eleven.into();
    assert_eq!(tmp, 11);

    tmp = niffler::Level::Twelve.into();
    assert_eq!(tmp, 12);

    tmp = niffler::Level::Thirteen.into();
    assert_eq!(tmp, 13);

    tmp = niffler::Level::Fourteen.into();
    assert_eq!(tmp, 14);

    tmp = niffler::Level::Fifteen.into();
    assert_eq!(tmp, 15);

    tmp = niffler::Level::Sixteen.into();
    assert_eq!(tmp, 16);

    tmp = niffler::Level::Seventeen.into();
    assert_eq!(tmp, 17);

    tmp = niffler::Level::Eighteen.into();
    assert_eq!(tmp, 18);

    tmp = niffler::Level::Nineteen.into();
    assert_eq!(tmp, 19);

    tmp = niffler::Level::Twenty.into();
    assert_eq!(tmp, 20);

    tmp = niffler::Level::TwentyOne.into();
    assert_eq!(tmp, 21);
}

#[test]
fn level2i32() {
    let mut tmp: i32 = niffler::Level::One.into();
    assert_eq!(tmp, 1);

    tmp = niffler::Level::Two.into();
    assert_eq!(tmp, 2);

    tmp = niffler::Level::Three.into();
    assert_eq!(tmp, 3);

    tmp = niffler::Level::Four.into();
    assert_eq!(tmp, 4);

    tmp = niffler::Level::Five.into();
    assert_eq!(tmp, 5);

    tmp = niffler::Level::Six.into();
    assert_eq!(tmp, 6);

    tmp = niffler::Level::Seven.into();
    assert_eq!(tmp, 7);

    tmp = niffler::Level::Eight.into();
    assert_eq!(tmp, 8);

    tmp = niffler::Level::Nine.into();
    assert_eq!(tmp, 9);

    tmp = niffler::Level::Ten.into();
    assert_eq!(tmp, 10);

    tmp = niffler::Level::Eleven.into();
    assert_eq!(tmp, 11);

    tmp = niffler::Level::Twelve.into();
    assert_eq!(tmp, 12);

    tmp = niffler::Level::Thirteen.into();
    assert_eq!(tmp, 13);

    tmp = niffler::Level::Fourteen.into();
    assert_eq!(tmp, 14);

    tmp = niffler::Level::Fifteen.into();
    assert_eq!(tmp, 15);

    tmp = niffler::Level::Sixteen.into();
    assert_eq!(tmp, 16);

    tmp = niffler::Level::Seventeen.into();
    assert_eq!(tmp, 17);

    tmp = niffler::Level::Eighteen.into();
    assert_eq!(tmp, 18);

    tmp = niffler::Level::Nineteen.into();
    assert_eq!(tmp, 19);

    tmp = niffler::Level::Twenty.into();
    assert_eq!(tmp, 20);

    tmp = niffler::Level::TwentyOne.into();
    assert_eq!(tmp, 21);
}

#[test]
fn compression_level2u32() {
    let mut tmp: u32 = niffler::compression::Level::One.into();
    assert_eq!(tmp, 1);

    tmp = niffler::compression::Level::Two.into();
    assert_eq!(tmp, 2);

    tmp = niffler::compression::Level::Three.into();
    assert_eq!(tmp, 3);

    tmp = niffler::compression::Level::Four.into();
    assert_eq!(tmp, 4);

    tmp = niffler::compression::Level::Five.into();
    assert_eq!(tmp, 5);

    tmp = niffler::compression::Level::Six.into();
    assert_eq!(tmp, 6);

    tmp = niffler::compression::Level::Seven.into();
    assert_eq!(tmp, 7);

    tmp = niffler::compression::Level::Eight.into();
    assert_eq!(tmp, 8);

    tmp = niffler::compression::Level::Nine.into();
    assert_eq!(tmp, 9);
}

#[test]
fn types_level2u32() {
    let tmp: u32 = niffler::types::CompressionLevel::One.into();
    assert_eq!(tmp, 1);
}

#[test]
fn types_bzip2_tiers() {
    assert_eq!(niffler::types::bzip2_tier(niffler::types::CompressionLevel::One), 1);
    assert_eq!(niffler::types::bzip2_tier(niffler::types::CompressionLevel::Two), 6);
    assert_eq!(niffler::types::bzip2_tier(niffler::types::CompressionLevel::Five), 6);
    assert_eq!(niffler::types::bzip2_tier(niffler::types::CompressionLevel::Eight), 6);
    assert_eq!(niffler::types::bzip2_tier(niffler::types::CompressionLevel::Nine), 9);
}

#[test]
fn native_gz_levels_clamp_to_nine() {
    assert_eq!(niffler::basic::compression::gz_level(niffler::Level::Zero), 0);
    assert_eq!(niffler::basic::compression::gz_level(niffler::Level::Nine), 9);
    assert_eq!(niffler::basic::compression::gz_level(niffler::Level::Ten), 9);
    assert_eq!(niffler::basic::compression::gz_level(niffler::Level::TwentyOne), 9);
}

#[test]
fn native_bz2_levels_stay_between_one_and_nine() {
    assert_eq!(niffler::basic::compression::bz2_level(niffler::Level::Zero), 1);
    assert_eq!(niffler::basic::compression::bz2_level(niffler::Level::One), 1);
    assert_eq!(niffler::basic::compression::bz2_level(niffler::Level::Nine), 9);
    assert_eq!(niffler::basic::compression::bz2_level(niffler::Level::Fifteen), 9);
}

#[test]
fn native_xz_levels_clamp_to_nine() {
    assert_eq!(niffler::basic::compression::xz_level(niffler::Level::Zero), 0);
    assert_eq!(niffler::basic::compression::xz_level(niffler::Level::Six), 6);
    assert_eq!(niffler::basic::compression::xz_level(niffler::Level::Twelve), 9);
}

#[test]
fn native_zstd_levels_map_directly() {
    assert_eq!(niffler::basic::compression::zstd_level(niffler::Level::Zero), 0);
    assert_eq!(niffler::basic::compression::zstd_level(niffler::Level::Nine), 9);
    assert_eq!(niffler::basic::compression::zstd_level(niffler::Level::TwentyOne), 21);
}
