use base64::Engine;
use subd::files::{file_extension, file_stem, is_mp3};
use subd::image_generation::{archive_names, unique_archive_names, AiImageRequests};
use subd::images::encode_image_data;
use subd::text::{decimal, join, parse_i32, parse_u64, signed_decimal, split_on, split_words};

#[test]
fn split_then_join_gives_the_text_back() {
    let s = "a,,b, c,";
    assert_eq!(join(&split_on(s, ','), ","), s);
    assert_eq!(split_on(s, ','), vec!["a", "", "b", " c", ""]);
    assert_eq!(split_words("  a\tb\n c  "), vec!["a", "b", "c"]);
}

#[test]
fn numbers() {
    assert_eq!(parse_u64("+42"), Some(42));
    assert_eq!(parse_u64("18446744073709551616"), None);
    assert_eq!(parse_i32("-2147483648"), Some(i32::MIN));
    assert_eq!(parse_i32("1.5"), None);
    assert_eq!(decimal(0), "0");
    assert_eq!(signed_decimal(-705), "-705");
}

#[test]
fn file_names() {
    assert_eq!(file_extension("song.mp3"), Some("mp3".to_string()));
    assert_eq!(file_extension("archive.tar.gz"), Some("gz".to_string()));
    assert_eq!(file_extension(".hidden"), None);
    assert_eq!(file_extension("noext"), None);
    assert_eq!(file_extension("dot."), Some("".to_string()));
    assert_eq!(file_stem("archive.tar.gz"), "archive.tar");
    assert_eq!(file_stem(".hidden"), ".hidden");
    assert_eq!(file_stem(".."), "..");
    assert!(is_mp3("a.mp3"));
    assert!(!is_mp3("a.MP3"));
}

#[test]
fn archive_file_names() {
    assert_eq!(
        archive_names("20240102030405", 3, "bob"),
        ("20240102030405_3_bob".to_string(), "./archive/20240102030405_3_bob.png".to_string())
    );
    let (id, file) = unique_archive_names(0, "bob");
    assert!(id.ends_with("_0_bob"));
    let stamp = &id[..id.len() - "_0_bob".len()];
    assert!(stamp.len() >= 14 && stamp.chars().skip(1).all(|c| c.is_ascii_digit()));
    assert_eq!(file, format!("./archive/{}.png", id));
    assert_eq!(AiImageRequests::DalleRequest, AiImageRequests::DalleRequest);
}

#[test]
fn base64_of_image_bytes() {
    assert_eq!(encode_image_data(&b"hello".to_vec()), "aGVsbG8=");
    assert_eq!(encode_image_data(&vec![]), "");
    assert_eq!(encode_image_data(&b"M".to_vec()), "TQ==");
    assert_eq!(encode_image_data(&b"Ma".to_vec()), "TWE=");
    assert_eq!(encode_image_data(&vec![255, 254]), "//4=");
}

#[test]
fn base64_reads_back() {
    let cases: Vec<Vec<u8>> = vec![vec![], vec![0], vec![1, 2], vec![255, 0, 128], b"hello world".to_vec()];
    for d in cases {
        let e = encode_image_data(&d);
        assert_eq!(base64::engine::general_purpose::STANDARD.decode(e).unwrap(), d);
    }
}

#[test]
fn decimals_read_back() {
    for n in [0u64, 7, 10, 12345, u64::MAX] {
        assert_eq!(parse_u64(&decimal(n)), Some(n));
    }
}
