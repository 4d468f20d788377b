//! Support utilities: content checksum, image persistence, and bounded
//! random number generation.
use vstd::prelude::*;

use md5::Digest;

use crate::error::ImageSaveError;
use crate::text::{digit_char, push_char};

verus! {

/// What the MD5 algorithm yields on the given bytes: its 16-byte digest.
pub uninterp spec fn md5_of(bytes: Seq<u8>) -> Seq<u8>;

/// Relies on `md5::Md5` of the `md-5` crate: computes the 16-byte MD5
/// digest of the input; the digest is a function of the bytes alone.
#[verifier::external_body]
fn md5_digest(bytes: &[u8]) -> (r: Vec<u8>)
    ensures
        r@ == md5_of(bytes@),
        r@.len() == 16,
{
    let mut hasher = md5::Md5::new();
    hasher.update(bytes);
    hasher.finalize().to_vec()
}

/// The lower-case hexadecimal digit with value `d`.
pub open spec fn hex_char(d: nat) -> char {
    if d < 10 {
        digit_char(d)
    } else if d == 10 {
        'a'
    } else if d == 11 {
        'b'
    } else if d == 12 {
        'c'
    } else if d == 13 {
        'd'
    } else if d == 14 {
        'e'
    } else {
        'f'
    }
}

fn hex_digit(d: u8) -> (c: char)
    requires
        d < 16,
    ensures
        c == hex_char(d as nat),
{
    match d {
        0 => '0',
        1 => '1',
        2 => '2',
        3 => '3',
        4 => '4',
        5 => '5',
        6 => '6',
        7 => '7',
        8 => '8',
        9 => '9',
        10 => 'a',
        11 => 'b',
        12 => 'c',
        13 => 'd',
        14 => 'e',
        _ => 'f',
    }
}

/// The bytes rendered as lower-case hexadecimal, two digits per byte,
/// most significant digit of each byte first.
pub open spec fn hex_of_bytes(b: Seq<u8>) -> Seq<char>
    decreases b.len(),
{
    if b.len() == 0 {
        Seq::empty()
    } else {
        hex_of_bytes(b.drop_last()).push(hex_char((b.last() / 16) as nat)).push(
            hex_char((b.last() % 16) as nat),
        )
    }
}

/// The MD5 checksum of the bytes, rendered as 32 lower-case hexadecimal
/// characters.
pub fn md5_of_bytes(bytes: &[u8]) -> (r: String)
    ensures
        r@ == hex_of_bytes(md5_of(bytes@)),
        r@.len() == 32,
{
    let digest = md5_digest(bytes);
    let mut out = String::new();
    let mut i: usize = 0;
    proof {
        assert(digest@.subrange(0, 0) =~= Seq::<u8>::empty());
    }
    while i < 16
        invariant
            i <= 16,
            digest@.len() == 16,
            digest@ == md5_of(bytes@),
            out@ == hex_of_bytes(digest@.subrange(0, i as int)),
            out@.len() == 2 * i,
        decreases 16 - i,
    {
        let b = digest[i];
        push_char(&mut out, hex_digit(b / 16));
        push_char(&mut out, hex_digit(b % 16));
        proof {
            assert(digest@.subrange(0, i + 1).drop_last() =~= digest@.subrange(0, i as int));
            assert(digest@.subrange(0, i + 1).last() == digest@[i as int]);
        }
        i = i + 1;
    }
    proof {
        assert(digest@.subrange(0, 16) =~= digest@);
    }
    out
}

/// Checksums are deterministic: equal input bytes always yield the same
/// checksum text, across calls and across handles.
pub proof fn lemma_checksum_deterministic(a: Seq<u8>, b: Seq<u8>)
    requires
        a == b,
    ensures
        hex_of_bytes(md5_of(a)) == hex_of_bytes(md5_of(b)),
{
}

/// Relies on `rand::random_range`: draws a value uniformly from the
/// inclusive range; it panics only on an empty range, which the
/// precondition rules out.
#[verifier::external_body]
pub fn rand_rng(min: u64, max: u64) -> (r: u64)
    requires
        min <= max,
    ensures
        min <= r <= max,
{
    rand::random_range(min..=max)
}

/// Relies on `image::DynamicImage::save_with_format`: encodes the image
/// as PNG and writes it to the named file. The outcome depends on the
/// file system, so of the result only this is promised: on success the
/// returned path is the caller's file name, and any encode or write
/// failure is collapsed into the one save-failure kind.
#[verifier::external_body]
pub fn save_dynamic_image_as_png(dynamic_image: &image::DynamicImage, file_name: &str) -> (r:
    Result<String, ImageSaveError>)
    ensures
        r matches Ok(path) ==> path@ == file_name@,
        r matches Err(e) ==> e is ImageSaveFailed,
{
    match dynamic_image.save_with_format(std::path::Path::new(file_name), image::ImageFormat::Png) {
        Ok(_) => Ok(file_name.to_string()),
        Err(_) => Err(ImageSaveError::ImageSaveFailed),
    }
}

} // verus!
