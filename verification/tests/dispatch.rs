const BZIP_FILE: &[u8] = &[0o102, 0o132, 0o0, 0o0, 0o0];
const LZMA_FILE: &[u8] = &[0o375, 0o067, 0o172, 0o130, 0o132];
const ZSTD_FILE: &[u8] = &[0x28, 0xb5, 0x2f, 0xfd, 0];
const LOREM_IPSUM: &[u8] = b"Lorem ipsum dolor sit amet, consectetur adipiscing elit. Ut ultricies scelerisque diam, a scelerisque enim sagittis at.";

#[test]
fn mod_no_bzip2_feature() {
    let codecs = niffler::Codecs { bz2: false, ..niffler::Codecs::all() };

    assert!(
        niffler::get_writer_with(codecs, vec![], niffler::Format::Bzip, niffler::Level::Six)
            .is_err(),
        "bz2 disabled, this assertion should fail"
    );

    assert!(
        niffler::get_reader_with(codecs, BZIP_FILE.to_vec()).is_err(),
        "bz2 disabled, this assertion should fail"
    );
}

#[test]
fn mod_no_lzma_feature() {
    let codecs = niffler::Codecs { lzma: false, ..niffler::Codecs::all() };

    assert!(
        niffler::get_writer_with(codecs, vec![], niffler::Format::Lzma, niffler::Level::Six)
            .is_err(),
        "lzma disabled, this assertion should fail"
    );

    assert!(
        niffler::get_reader_with(codecs, LZMA_FILE.to_vec()).is_err(),
        "lzma disabled, this assertion should fail"
    );
}

#[test]
fn mod_no_xz_feature() {
    let codecs = niffler::Codecs { lzma: false, ..niffler::Codecs::all() };

    assert!(
        niffler::get_writer_with(codecs, vec![], niffler::Format::Xz, niffler::Level::Six)
            .is_err(),
        "xz disabled, this assertion should fail"
    );

    assert!(
        niffler::get_reader_with(codecs, LZMA_FILE.to_vec()).is_err(),
        "xz disabled, this assertion should fail"
    );
}

#[test]
fn mod_no_zstd_feature() {
    let codecs = niffler::Codecs { zstd: false, ..niffler::Codecs::all() };

    assert!(
        niffler::get_writer_with(codecs, vec![], niffler::Format::Zstd, niffler::Level::Six)
            .is_err(),
        "zstd disabled, this assertion should fail"
    );

    assert!(
        niffler::get_reader_with(codecs, ZSTD_FILE.to_vec()).is_err(),
        "zstd disabled, this assertion should fail"
    );
}

#[test]
fn disabled_codec_reports_feature_disabled() {
    let codecs = niffler::Codecs::none();

    let written =
        niffler::get_writer_with(codecs, LOREM_IPSUM.to_vec(), niffler::Format::Gzip, niffler::Level::One);
    assert!(matches!(written, Err(niffler::Error::FeatureDisabled)));

    let written =
        niffler::get_writer_with(codecs, LOREM_IPSUM.to_vec(), niffler::Format::No, niffler::Level::One)
            .expect("Error during write of data");
    assert_eq!(written.as_slice(), LOREM_IPSUM);
}

#[test]
fn roundtrip_no_compression() {
    let written =
        niffler::get_writer(LOREM_IPSUM.to_vec(), niffler::Format::No, niffler::Level::One)
            .unwrap();

    let (contents, compression) =
        niffler::get_reader(written).expect("Error reading from tmpfile");

    assert_eq!(compression, niffler::Format::No);
    assert_eq!(LOREM_IPSUM, contents.as_slice());
}

#[test]
fn roundtrip_gzip() {
    let written =
        niffler::get_writer(LOREM_IPSUM.to_vec(), niffler::Format::Gzip, niffler::Level::Six)
            .unwrap();

    let (contents, compression) =
        niffler::get_reader(written).expect("Error reading from tmpfile");

    assert_eq!(compression, niffler::Format::Gzip);
    assert_eq!(LOREM_IPSUM, contents.as_slice());
}

#[test]
fn roundtrip_bzip() {
    let written =
        niffler::get_writer(LOREM_IPSUM.to_vec(), niffler::Format::Bzip, niffler::Level::Six)
            .unwrap();

    let (contents, compression) =
        niffler::get_reader(written).expect("Error reading from tmpfile");

    assert_eq!(compression, niffler::Format::Bzip);
    assert_eq!(LOREM_IPSUM, contents.as_slice());
}

#[test]
fn bzip_multidecoder() {
    let written =
        niffler::get_writer(LOREM_IPSUM.to_vec(), niffler::Format::Bzip, niffler::Level::Six)
            .unwrap();

    let mut doubled = written.clone();
    doubled.extend(written);

    let (contents, compression) =
        niffler::get_reader(doubled).expect("Error reading from tmpfile");

    assert_eq!(compression, niffler::Format::Bzip);
    let mut expected: Vec<u8> = LOREM_IPSUM.into();
    expected.extend(LOREM_IPSUM);
    assert_eq!(expected, contents);
}

#[test]
fn roundtrip_lzma() {
    let written =
        niffler::get_writer(LOREM_IPSUM.to_vec(), niffler::Format::Lzma, niffler::Level::Six)
            .unwrap();

    let (contents, compression) =
        niffler::get_reader(written).expect("Error reading from tmpfile");

    assert_eq!(compression, niffler::Format::Lzma);
    assert_eq!(LOREM_IPSUM, contents.as_slice());
}

#[test]
fn roundtrip_xz() {
    let written =
        niffler::get_writer(LOREM_IPSUM.to_vec(), niffler::Format::Xz, niffler::Level::Six)
            .unwrap();

    let (contents, compression) =
        niffler::get_reader(written).expect("Error reading from tmpfile");

    assert_eq!(compression, niffler::Format::Xz);
    assert_eq!(LOREM_IPSUM, contents.as_slice());
}

#[test]
fn roundtrip_zstd() {
    let written =
        niffler::get_writer(LOREM_IPSUM.to_vec(), niffler::Format::Zstd, niffler::Level::Six)
            .unwrap();

    let (contents, compression) =
        niffler::get_reader(written).expect("Error reading from tmpfile");

    assert_eq!(compression, niffler::Format::Zstd);
    assert_eq!(LOREM_IPSUM, contents.as_slice());
}

#[test]
fn roundtrip_every_level() {
    let levels = vec![
        niffler::Level::Zero,
        niffler::Level::One,
        niffler::Level::Five,
        niffler::Level::Nine,
        niffler::Level::Ten,
        niffler::Level::TwentyOne,
    ];
    let formats = vec![
        niffler::Format::Gzip,
        niffler::Format::Bzip,
        niffler::Format::Lzma,
        niffler::Format::Zstd,
    ];
    for format in &formats {
        for level in &levels {
            let written = niffler::get_writer(LOREM_IPSUM.to_vec(), *format, *level)
                .expect("Error during write of data");
            let (contents, compression) =
                niffler::get_reader(written).expect("Error during reading");
            assert_eq!(compression, *format);
            assert_eq!(LOREM_IPSUM, contents.as_slice());
        }
    }
}

#[test]
fn writer_output_carries_the_magic_of_its_format() {
    let formats = vec![
        niffler::Format::Gzip,
        niffler::Format::Bzip,
        niffler::Format::Lzma,
        niffler::Format::Zstd,
    ];
    for format in &formats {
        let written = niffler::get_writer(LOREM_IPSUM.to_vec(), *format, niffler::Level::One)
            .expect("Error during write of data");
        assert_ne!(written.as_slice(), LOREM_IPSUM);
        let (_, detected) = niffler::sniff(written).expect("Error in read file");
        assert_eq!(detected, *format);
    }
}

#[test]
fn truncated_gzip_reports_io_error() {
    match niffler::get_reader(vec![0x1f, 0x8b, 0, 0, 0]) {
        Err(niffler::Error::IOError(cause)) => assert!(!cause.is_empty()),
        _ => panic!("a truncated gzip stream must report the codec's failure"),
    }
}

#[test]
fn corrupt_streams_report_io_error() {
    let result = niffler::get_reader(vec![0x42, 0x5a, 0, 0, 0]);
    assert!(matches!(result, Err(niffler::Error::IOError(_))));

    let result = niffler::get_reader(vec![0xfd, 0x37, 0x7a, 0x58, 0x5a]);
    assert!(matches!(result, Err(niffler::Error::IOError(_))));

    let result = niffler::get_reader(vec![0x28, 0xb5, 0x2f, 0xfd, 0xff, 0xff, 0xff]);
    assert!(matches!(result, Err(niffler::Error::IOError(_))));
}

#[test]
fn error_messages_name_each_failure() {
    assert_eq!(
        niffler::Error::FeatureDisabled.message(),
        "Feature disabled, enabled it during compilation"
    );
    assert_eq!(
        niffler::Error::FileTooShort.message(),
        "File is too short, less than five bytes"
    );
    assert_eq!(niffler::Error::IOError(String::from("codec failure")).message(), "I/O error");
}
