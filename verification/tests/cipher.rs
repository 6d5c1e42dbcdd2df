use headless_xi::{
    build_sea_all_request, validate_hash, SearchCrypto, SearchError, SearchSession, XiBlowfish,
    INITIAL_KEY, IXFF,
};
use headless_xi::crypto::blowfish_crypt;
use headless_xi::Direction;
use md5::{Digest, Md5};

fn invalid_packet_text(err: SearchError) -> String {
    match err {
        SearchError::InvalidPacket(m) => m,
        other => panic!("unexpected error {other:?}"),
    }
}

fn sample_packet(len: usize) -> Vec<u8> {
    (0..len).map(|i| (i * 37 + 11) as u8).collect()
}

#[test]
fn decipher_undoes_encipher() {
    let cipher = XiBlowfish::new(&[0x10, 0x92, 0x33, 0xf4, 0x05]);
    for (l0, r0) in [(0u32, 0u32), (0x0123_4567, 0x89ab_cdef), (u32::MAX, 1)] {
        let (mut l, mut r) = (l0, r0);
        cipher.encipher(&mut l, &mut r);
        assert_ne!((l, r), (l0, r0));
        cipher.decipher(&mut l, &mut r);
        assert_eq!((l, r), (l0, r0));
    }
}

#[test]
fn encipher_undoes_decipher() {
    let cipher = XiBlowfish::new(&INITIAL_KEY);
    let (mut l, mut r) = (0xdead_beefu32, 0x0bad_f00du32);
    cipher.decipher(&mut l, &mut r);
    cipher.encipher(&mut l, &mut r);
    assert_eq!((l, r), (0xdead_beef, 0x0bad_f00d));
}

#[test]
fn encrypting_a_decrypted_packet_restores_it() {
    let key = [7u8; 16];
    let before = sample_packet(40);
    let mut packet = before.clone();
    blowfish_crypt(&mut packet, &key, Direction::Decrypt);
    assert_ne!(packet, before);
    assert_eq!(&packet[..8], &before[..8]);
    assert_eq!(&packet[32..], &before[32..]);
    blowfish_crypt(&mut packet, &key, Direction::Encrypt);
    assert_eq!(packet, before);
}

fn block_under(key: &[u8]) -> (u32, u32) {
    let cipher = XiBlowfish::new(key);
    let (mut l, mut r) = (0x0123_4567u32, 0x89ab_cdefu32);
    cipher.encipher(&mut l, &mut r);
    (l, r)
}

#[test]
fn keys_with_equal_key_words_give_equal_ciphers() {
    assert_eq!(block_under(&[0x00, 0x00, 0x00, 0x80]), block_under(&[0xff, 0xff, 0xff, 0x80]));
    assert_ne!(block_under(&[0x00, 0x00, 0x00, 0x7f]), block_under(&[0xff, 0xff, 0xff, 0x7f]));
}

#[test]
fn repeated_or_cut_keys_give_equal_ciphers() {
    let key: Vec<u8> = (0..23u8).map(|i| i.wrapping_mul(29).wrapping_add(5)).collect();
    assert_eq!(block_under(&key), block_under(&[key.clone(), key.clone()].concat()));
    let long: Vec<u8> = (0..100u8).map(|i| i.wrapping_mul(151)).collect();
    assert_eq!(block_under(&long), block_under(&long[..72]));
    assert_ne!(block_under(&long), block_under(&long[..71]));
}

#[test]
fn different_keys_give_different_ciphers() {
    let a = XiBlowfish::new(&[1, 2, 3, 4]);
    let b = XiBlowfish::new(&[1, 2, 3, 5]);
    let (mut l1, mut r1) = (7u32, 9u32);
    let (mut l2, mut r2) = (7u32, 9u32);
    a.encipher(&mut l1, &mut r1);
    b.encipher(&mut l2, &mut r2);
    assert_ne!((l1, r1), (l2, r2));
}

#[test]
fn validate_hash_accepts_md5_of_body() {
    let mut packet = sample_packet(40);
    let digest = Md5::digest(&packet[8..20]);
    packet[20..36].copy_from_slice(&digest);
    assert!(validate_hash(&packet).is_ok());
}

#[test]
fn validate_hash_knows_md5_of_empty_body() {
    // a 28-byte packet has an empty body; MD5 of nothing is d41d8cd98f00b204e9800998ecf8427e
    let mut packet = vec![0u8; 28];
    packet[8..24].copy_from_slice(&[
        0xd4, 0x1d, 0x8c, 0xd9, 0x8f, 0x00, 0xb2, 0x04, 0xe9, 0x80, 0x09, 0x98, 0xec, 0xf8, 0x42,
        0x7e,
    ]);
    assert!(validate_hash(&packet).is_ok());
}

#[test]
fn validate_hash_rejects_tampered_packet() {
    let mut packet = sample_packet(40);
    let digest = Md5::digest(&packet[8..20]);
    packet[20..36].copy_from_slice(&digest);
    packet[9] ^= 1;
    let err = validate_hash(&packet).unwrap_err();
    assert_eq!(invalid_packet_text(err), "MD5 validation failed");
}

#[test]
fn sealed_request_carries_header_hash_and_trailer() {
    let mut crypto = SearchCrypto::new();
    let plain = build_sea_all_request();
    let sealed = crypto.encrypt(plain.clone()).unwrap();
    let len = sealed.len();
    assert_eq!(len, 0x4c);
    assert_eq!(u16::from_le_bytes([sealed[0], sealed[1]]), 0x4c);
    assert_eq!(u32::from_le_bytes([sealed[4], sealed[5], sealed[6], sealed[7]]), IXFF);
    assert_eq!(&sealed[len - 4..], &INITIAL_KEY[16..20]);
    assert_ne!(&sealed[8..len - 4], &plain[8..len - 4]);
}

#[test]
fn request_roundtrip_restores_framed_packet() {
    for len in [28usize, 29, 35, 36, 64, 100] {
        let plain = sample_packet(len);
        let mut client = SearchCrypto::new();
        let sealed = client.encrypt(plain.clone()).unwrap();
        let mut server = SearchCrypto::new();
        let opened = server.decrypt_client_request_for_test(sealed).unwrap();
        assert_eq!(u16::from_le_bytes([opened[0], opened[1]]) as usize, len);
        assert_eq!(&opened[2..4], &plain[2..4]);
        assert_eq!(&opened[8..len - 20], &plain[8..len - 20]);
        assert_eq!(&opened[len - 20..len - 4], Md5::digest(&plain[8..len - 20]).as_slice());
    }
}

#[test]
fn response_roundtrip_restores_framed_packet_and_advances_key() {
    let plain = sample_packet(60);
    let mut server = SearchCrypto::new();
    let sealed = server.encrypt_server_response_for_test(plain.clone()).unwrap();
    let mut client = SearchCrypto::new();
    let opened = client.decrypt(sealed).unwrap();
    assert_eq!(&opened[8..40], &plain[8..40]);
    // the four bytes before the hash now key the next response: sealing the same packet
    // again under the advanced key differs
    let again = client
        .encrypt_server_response_for_test(plain.clone())
        .unwrap();
    let first = SearchCrypto::new()
        .encrypt_server_response_for_test(plain)
        .unwrap();
    assert_ne!(again, first);
}

#[test]
fn encrypt_rejects_short_packet() {
    let err = SearchCrypto::new().encrypt(vec![0u8; 27]).unwrap_err();
    assert_eq!(invalid_packet_text(err), "packet too short to encrypt");
}

#[test]
fn decrypt_rejects_short_packet() {
    let err = SearchCrypto::new().decrypt(vec![0u8; 20]).unwrap_err();
    assert_eq!(invalid_packet_text(err), "packet too short to decrypt");
}

#[test]
fn decrypt_rejects_corrupted_response() {
    let mut server = SearchCrypto::new();
    let mut sealed = server
        .encrypt_server_response_for_test(sample_packet(48))
        .unwrap();
    sealed[12] ^= 0x40;
    let err = SearchCrypto::new().decrypt(sealed).unwrap_err();
    assert_eq!(invalid_packet_text(err), "MD5 validation failed");
}

#[test]
fn session_request_opens_as_client_request() {
    let mut session = SearchSession::new();
    let request = session.request();
    let mut server = SearchCrypto::new();
    let opened = server.decrypt_client_request_for_test(request).unwrap();
    assert_eq!(&opened[8..0x4c - 20], &build_sea_all_request()[8..0x4c - 20]);
}
