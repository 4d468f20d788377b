use dark_instruments::toolkit::digest::md5_of_bytes;

#[test]
fn md5_of_empty_input() {
    assert_eq!(md5_of_bytes(&[]), "d41d8cd98f00b204e9800998ecf8427e");
}

#[test]
fn md5_of_known_input() {
    assert_eq!(md5_of_bytes(b"abc"), "900150983cd24fb0d6963f7d28e17f72");
}

#[test]
fn checksum_is_deterministic() {
    let bytes = vec![0u8, 1, 2, 3, 255, 254, 127];
    let first = md5_of_bytes(&bytes);
    let second = md5_of_bytes(&bytes);
    assert_eq!(first, second);
    assert_eq!(first.len(), 32);
}

#[test]
fn checksum_changes_with_the_input() {
    // a one-byte change flips the digest on these inputs
    assert_ne!(md5_of_bytes(b"abc"), md5_of_bytes(b"abd"));
    assert_ne!(md5_of_bytes(b"screen"), md5_of_bytes(b"scream"));
}
