use core::convert::TryFrom;

use crypto_secretstream::{Header, InvalidLength};
use rand_chacha::rand_core::SeedableRng;
use rand_chacha::ChaCha20Rng;
use rand_core::{OsRng, RngCore};

fn ascending() -> [u8; 24] {
    let mut bytes = [0u8; 24];
    for (i, b) in bytes.iter_mut().enumerate() {
        *b = i as u8;
    }
    bytes
}

fn seeded_header(seed: u64) -> Header {
    let mut rng = ChaCha20Rng::seed_from_u64(seed);
    let mut bytes = [0u8; 24];
    rng.fill_bytes(&mut bytes);
    Header::from(bytes)
}

#[test]
fn can_be_constructed_by_serialized() {
    let header = Header::generate(&mut OsRng);

    let reconstructed_header = Header::from(header);

    assert_eq!(header.as_ref(), reconstructed_header.as_ref());
}

#[test]
fn array_round_trips_through_header() {
    let bytes = ascending();
    let header = Header::from(bytes);
    assert_eq!(header.as_ref(), &bytes);
    let by_ref = Header::from(&bytes);
    assert_eq!(by_ref.as_ref(), &bytes);
    assert_eq!(header, by_ref);
}

#[test]
fn slice_of_own_bytes_reconstructs_header() {
    let header = seeded_header(7);
    let array: &[u8; 24] = header.as_ref();
    let bytes: &[u8] = array;
    let back = Header::try_from(bytes).unwrap();
    assert_eq!(back, header);
    assert_eq!(back.as_ref(), header.as_ref());
}

#[test]
fn short_slice_is_rejected() {
    let bytes = [0x00u8; 23];
    let err = Header::try_from(&bytes[..]).unwrap_err();
    assert_eq!(err, InvalidLength { expected: 24, actual: 23 });
    assert_eq!(err.expected, 24);
    assert_eq!(err.actual, 23);
}

#[test]
fn long_and_empty_slices_are_rejected() {
    let long = [0xffu8; 25];
    assert_eq!(
        Header::try_from(&long[..]),
        Err(InvalidLength::new(24, 25))
    );
    let empty: [u8; 0] = [];
    assert_eq!(
        Header::try_from(&empty[..]),
        Err(InvalidLength::new(24, 0))
    );
}

#[test]
fn zero_header_splits_into_zero_nonces() {
    let bytes = [0x00u8; 24];
    let header = Header::try_from(&bytes[..]).unwrap();
    let (sub_nonce, nonce) = header.split();
    assert_eq!(sub_nonce, [0u8; 16]);
    assert_eq!(nonce, [0u8; 8]);
}

#[test]
fn ascending_header_splits_at_sixteen() {
    let header = Header::from(ascending());
    let (sub_nonce, nonce) = header.split();
    assert_eq!(
        sub_nonce,
        [0x00, 0x01, 0x02, 0x03, 0x04, 0x05, 0x06, 0x07, 0x08, 0x09, 0x0a, 0x0b, 0x0c, 0x0d, 0x0e, 0x0f]
    );
    assert_eq!(nonce, [0x10, 0x11, 0x12, 0x13, 0x14, 0x15, 0x16, 0x17]);
}

#[test]
fn split_halves_concatenate_to_header() {
    let header = seeded_header(42);
    let (sub_nonce, nonce) = header.split();
    let mut joined = Vec::new();
    joined.extend_from_slice(&sub_nonce);
    joined.extend_from_slice(&nonce);
    let array: &[u8; 24] = header.as_ref();
    assert_eq!(&joined[..], &array[..]);
}

#[test]
fn different_seeds_give_different_headers() {
    let a = seeded_header(1);
    let b = seeded_header(2);
    assert_ne!(a, b);
    assert_eq!(seeded_header(1), a);
}

#[test]
fn generated_headers_differ() {
    let a = Header::generate(&mut OsRng);
    let b = Header::generate(&mut OsRng);
    assert_ne!(a, b);
}

#[test]
fn equality_is_bytewise() {
    let a = Header::from(ascending());
    let mut b = a;
    assert_eq!(a, b);
    b.as_mut()[23] = 0xff;
    assert_ne!(a, b);
    assert_eq!(b.as_ref()[23], 0xff);
    assert_eq!(b.as_ref()[..23], a.as_ref()[..23]);
}

#[test]
fn sizes_are_fixed() {
    assert_eq!(Header::BYTES, 24);
    assert_eq!(Header::SUB_NONCE_BYTES + Header::NONCE_BYTES, Header::BYTES);
}
