use byteorder::{ByteOrder, LittleEndian};
use headless_xi::{
    build_sea_all_request, parse_search_list_packet, SearchCrypto, HASH_LEN, IXFF,
    KEY_TRAILER_LEN, SEARCH_AREA, SEARCH_ID, SEARCH_JOB, SEARCH_LEVEL, SEARCH_NAME,
    SEARCH_REQUEST_LEN, TCP_SEARCH_ALL,
};

fn pack_bits_le(buf: &mut [u8], mut bit_offset: usize, value: u64, width: usize) -> usize {
    for bit in 0..width {
        let absolute = bit_offset + bit;
        let byte = absolute / 8;
        let bit_in_byte = absolute % 8;
        if ((value >> bit) & 1) != 0 {
            buf[byte] |= 1 << bit_in_byte;
        }
    }
    bit_offset += width;
    bit_offset
}

fn decode_hex(hex: &str) -> Vec<u8> {
    hex.as_bytes()
        .chunks_exact(2)
        .map(|pair| {
            let hi = (pair[0] as char).to_digit(16).unwrap();
            let lo = (pair[1] as char).to_digit(16).unwrap();
            ((hi << 4) | lo) as u8
        })
        .collect()
}

#[test]
fn sea_all_request_matches_captured_search_all_body() {
    let packet = build_sea_all_request();
    assert_eq!(
        LittleEndian::read_u16(&packet[0..2]),
        SEARCH_REQUEST_LEN as u16
    );
    assert_eq!(LittleEndian::read_u32(&packet[4..8]), IXFF);
    assert_eq!(LittleEndian::read_u16(&packet[0x08..0x0a]), 0x13);
    assert_eq!(packet[0x0a], 0x80);
    assert_eq!(packet[0x0b], TCP_SEARCH_ALL);
    assert_eq!(packet[0x10], 0x02);
    assert_eq!(LittleEndian::read_u32(&packet[0x14..0x18]), 60_000);
    assert_eq!(LittleEndian::read_u32(&packet[0x1c..0x20]), 3);
}

#[test]
fn parses_bitpacked_search_player() {
    let mut packet = vec![0u8; 256];
    packet[0x0a] = 0x80;
    packet[0x0b] = 0x80;
    LittleEndian::write_u16(&mut packet[0x0e..0x10], 1);

    let size_offset = 192 / 8;
    let mut offset = 200;
    offset = pack_bits_le(&mut packet, offset, SEARCH_NAME, 5);
    offset = pack_bits_le(&mut packet, offset, 4, 4);
    for b in b"Test" {
        offset = pack_bits_le(&mut packet, offset, u64::from(*b), 7);
    }
    offset = pack_bits_le(&mut packet, offset, SEARCH_AREA, 5);
    offset = pack_bits_le(&mut packet, offset, 230, 10);
    offset = pack_bits_le(&mut packet, offset, SEARCH_JOB, 5);
    offset = pack_bits_le(&mut packet, offset, 1, 5);
    offset = pack_bits_le(&mut packet, offset, 2, 5);
    offset = pack_bits_le(&mut packet, offset, SEARCH_LEVEL, 5);
    offset = pack_bits_le(&mut packet, offset, 75, 8);
    offset = pack_bits_le(&mut packet, offset, 37, 8);
    offset = pack_bits_le(&mut packet, offset, SEARCH_ID, 5);
    offset = pack_bits_le(&mut packet, offset, 12345, 20);
    if offset % 8 != 0 {
        offset += 8 - offset % 8;
    }
    packet[size_offset] = (offset / 8 - size_offset - 1) as u8;
    LittleEndian::write_u16(&mut packet[0x08..0x0a], (offset / 8) as u16);

    let response = parse_search_list_packet(&packet).unwrap();
    assert!(response.final_packet);
    assert_eq!(response.players.len(), 1);
    assert_eq!(response.players[0].name, "Test");
    assert_eq!(response.players[0].zone, Some(230));
    assert_eq!(response.players[0].main_job, Some(1));
    assert_eq!(response.players[0].sub_job, Some(2));
    assert_eq!(response.players[0].main_level, Some(75));
    assert_eq!(response.players[0].sub_level, Some(37));
    assert_eq!(response.players[0].id, Some(12345));
}

#[test]
fn parses_horizon_msb_bitpacked_search_player() {
    let record =
        decode_hex("2202c1c3930ed09ec246f1912c94a300a3100420a2045c00000001600002008b800100");
    let mut packet = vec![0u8; 24 + record.len() + HASH_LEN + KEY_TRAILER_LEN];
    packet[0x0a] = 0x80;
    packet[0x0b] = 0x80;
    LittleEndian::write_u16(&mut packet[0x08..0x0a], (24 + record.len()) as u16);
    packet[24..24 + record.len()].copy_from_slice(&record);

    let response = parse_search_list_packet(&packet).unwrap();
    assert!(response.final_packet);
    assert_eq!(response.players.len(), 1);
    assert_eq!(response.players[0].name, "Aadam");
    assert_eq!(response.players[0].zone, Some(246));
    assert_eq!(response.players[0].nation, Some(1));
    assert_eq!(response.players[0].main_job, Some(15));
    assert_eq!(response.players[0].sub_job, Some(3));
    assert_eq!(response.players[0].main_level, Some(75));
    assert_eq!(response.players[0].sub_level, Some(37));
    assert_eq!(response.players[0].race, Some(1));
    assert_eq!(response.players[0].rank, Some(10));
    assert_eq!(response.players[0].flags1, Some(0x2008));
    assert_eq!(response.players[0].id, Some(165905));
    assert_eq!(response.players[0].flags2, Some(0x2008));
    assert_eq!(response.players[0].languages, Some(0x0002));
}

#[test]
fn encrypted_sea_all_request_validates_as_client_request() {
    let mut writer = SearchCrypto::new();
    let encrypted = writer.encrypt(build_sea_all_request()).unwrap();

    let mut reader = SearchCrypto::new();
    let decrypted = reader.decrypt_client_request_for_test(encrypted).unwrap();

    assert_eq!(decrypted[0x0b], TCP_SEARCH_ALL);
    assert_eq!(decrypted[0x10], 0x02);
    assert_eq!(LittleEndian::read_u16(&decrypted[0x08..0x0a]), 0x13);
}

#[test]
fn encrypted_search_response_validates_after_local_decrypt() {
    let mut packet = vec![0u8; 0x30];
    packet[0x0a] = 0x80;
    packet[0x0b] = 0x80;
    LittleEndian::write_u16(&mut packet[0x08..0x0a], 0x18);

    let mut server = SearchCrypto::new();
    let encrypted = server.encrypt_server_response_for_test(packet).unwrap();

    let mut client = SearchCrypto::new();
    let decrypted = client.decrypt(encrypted).unwrap();

    assert_eq!(decrypted[0x0a], 0x80);
    assert_eq!(decrypted[0x0b], 0x80);
}
