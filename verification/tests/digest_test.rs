use registry_testkit::digest::{content_digest, format_digest};
use registry_testkit::text::decimal_string;

#[test]
fn empty_content_has_the_well_known_digest() {
    assert_eq!(
        content_digest(&[]),
        "sha256:e3b0c44298fc1c149afbf4c8996fb92427ae41e4649b934ca495991b7852b855"
    );
}

#[test]
fn digest_of_known_text() {
    assert_eq!(
        content_digest(b"hello world"),
        "sha256:b94d27b9934d3e08a52e52d7da7dabfac484efe37a5380ee9088f7ace2efcde9"
    );
    assert_eq!(
        content_digest(b"abc"),
        "sha256:ba7816bf8f01cfea414140de5dae2223b00361a396177a9cb410ff61f20015ad"
    );
}

#[test]
fn digest_is_not_the_content_itself() {
    let digest = content_digest(b"0123456789abcdef");
    assert_ne!(digest, "sha256:0123456789abcdef");
    assert_ne!(digest, "sha256:30313233343536373839616263646566");
    assert_eq!(digest.len(), 7 + 64);
}

#[test]
fn digest_depends_on_every_byte() {
    assert_ne!(content_digest(&[0]), content_digest(&[]));
    assert_ne!(content_digest(&[0]), content_digest(&[1]));
    assert_ne!(content_digest(&[0, 1]), content_digest(&[1, 0]));
    assert_eq!(content_digest(&[7, 7, 7]), content_digest(&[7, 7, 7]));
}

#[test]
fn format_digest_writes_two_lowercase_digits_per_byte() {
    assert_eq!(format_digest(&[]), "sha256:");
    assert_eq!(format_digest(&[0x00]), "sha256:00");
    assert_eq!(format_digest(&[0x0f, 0xf0]), "sha256:0ff0");
    assert_eq!(format_digest(&[0x01, 0x23, 0x45, 0x67, 0x89]), "sha256:0123456789");
    assert_eq!(format_digest(&[0xab, 0xcd, 0xef, 0xff]), "sha256:abcdefff");
    assert_eq!(format_digest(&[1, 2, 3, 15, 16]), "sha256:0102030f10");
}

#[test]
fn format_digest_is_not_the_bytes_as_text() {
    assert_eq!(format_digest(b"Hello world!"), "sha256:48656c6c6f20776f726c6421");
}

#[test]
fn decimal_string_of_single_digits() {
    assert_eq!(decimal_string(0), "0");
    assert_eq!(decimal_string(1), "1");
    assert_eq!(decimal_string(9), "9");
}

#[test]
fn decimal_string_of_longer_numbers() {
    assert_eq!(decimal_string(10), "10");
    assert_eq!(decimal_string(99), "99");
    assert_eq!(decimal_string(100), "100");
    assert_eq!(decimal_string(1234567890), "1234567890");
    assert_eq!(decimal_string(usize::MAX), usize::MAX.to_string());
}
