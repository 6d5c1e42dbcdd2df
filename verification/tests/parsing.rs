use headless_xi::{
    is_valid_player_name, packet_length, parse_player, parse_search_list_packet, unpack_bits,
    unpack_bits_le, unpack_bits_msb, BitOrder, SearchError, SEARCH_AREA, SEARCH_FLAGS2,
    SEARCH_NAME, SEARCH_NATION,
};

fn invalid_packet_text(err: SearchError) -> String {
    match err {
        SearchError::InvalidPacket(m) => m,
        other => panic!("unexpected error {other:?}"),
    }
}

fn pack_lsb(buf: &mut [u8], offset: usize, value: u64, width: usize) -> usize {
    for bit in 0..width {
        if (value >> bit) & 1 != 0 {
            buf[(offset + bit) / 8] |= 1 << ((offset + bit) % 8);
        }
    }
    offset + width
}

fn pack_msb(buf: &mut [u8], offset: usize, value: u64, width: usize) -> usize {
    for bit in 0..width {
        if (value >> (width - 1 - bit)) & 1 != 0 {
            buf[(offset + bit) / 8] |= 0x80 >> ((offset + bit) % 8);
        }
    }
    offset + width
}

fn pack_name(buf: &mut [u8], offset: usize, name: &str, msb: bool) -> usize {
    let pack = if msb { pack_msb } else { pack_lsb };
    let mut offset = pack(buf, offset, SEARCH_NAME, 5);
    offset = pack(buf, offset, name.len() as u64, 4);
    for b in name.bytes() {
        offset = pack(buf, offset, u64::from(b), 7);
    }
    offset
}

#[test]
fn unpack_bits_le_reads_least_significant_first() {
    let buf = [0b1011_0100u8, 0b0000_0011];
    assert_eq!(unpack_bits_le(&buf, 2, 3), 0b101);
    assert_eq!(unpack_bits_le(&buf, 6, 4), 0b1110);
    assert_eq!(unpack_bits_le(&buf, 0, 16), 0x03b4);
}

#[test]
fn unpack_bits_msb_reads_most_significant_first() {
    let buf = [0b1011_0100u8, 0b1100_0000];
    assert_eq!(unpack_bits_msb(&buf, 0, 3), 0b101);
    assert_eq!(unpack_bits_msb(&buf, 6, 4), 0b0011);
}

#[test]
fn adjacent_fields_join_into_the_field_spanning_both() {
    let buf = [0x5au8, 0xc3, 0x96, 0x0f, 0xe1];
    for (offset, a, b) in [(0usize, 3usize, 5usize), (5, 7, 9), (2, 13, 20), (1, 1, 0), (4, 32, 4)] {
        assert_eq!(
            unpack_bits_le(&buf, offset, a + b),
            unpack_bits_le(&buf, offset, a) | (unpack_bits_le(&buf, offset + a, b) << a)
        );
        assert_eq!(
            unpack_bits_msb(&buf, offset, a + b),
            (unpack_bits_msb(&buf, offset, a) << b) | unpack_bits_msb(&buf, offset + a, b)
        );
    }
}

#[test]
fn unpack_bits_past_the_end_reads_zero() {
    let buf = [0xffu8];
    assert_eq!(unpack_bits(&buf, 4, 8, BitOrder::Lsb), 0x0f);
    assert_eq!(unpack_bits(&buf, 4, 8, BitOrder::Msb), 0xf0);
    assert_eq!(unpack_bits(&buf, 100, 32, BitOrder::Lsb), 0);
}

#[test]
fn unpack_bits_msb_keeps_low_64_bits_of_wide_field() {
    let buf = [0xffu8; 10];
    assert_eq!(unpack_bits_msb(&buf, 0, 72), u64::MAX);
    assert_eq!(unpack_bits_msb(&buf, 0, 80), u64::MAX);
    assert_eq!(unpack_bits(&buf, 0, 80, BitOrder::Msb), u64::MAX);
    let mixed = [0x12u8, 0x34, 0x56, 0x78, 0x9a, 0xbc, 0xde, 0xf0, 0x11, 0x22];
    assert_eq!(unpack_bits(&mixed, 0, 72, BitOrder::Msb), 0x3456_789a_bcde_f011);
    assert_eq!(unpack_bits_msb(&mixed, 0, 72), 0x3456_789a_bcde_f011);
}

#[test]
fn valid_names_are_ascii_letters() {
    assert!(is_valid_player_name("Aadam"));
    assert!(is_valid_player_name("zZ"));
    assert!(!is_valid_player_name(""));
    assert!(!is_valid_player_name("Ab1"));
    assert!(!is_valid_player_name("A b"));
    assert!(!is_valid_player_name("Äbc"));
}

#[test]
fn packet_length_accepts_28_to_4096() {
    assert_eq!(packet_length([28, 0]).unwrap(), 28);
    assert_eq!(packet_length([0x00, 0x10]).unwrap(), 4096);
    assert_eq!(invalid_packet_text(packet_length([27, 0]).unwrap_err()), "bad length 27");
    assert_eq!(invalid_packet_text(packet_length([0x01, 0x10]).unwrap_err()), "bad length 4097");
}

#[test]
fn parse_player_reads_fields_and_stops_at_second_empty_name() {
    let mut buf = vec![0u8; 32];
    let mut end = pack_name(&mut buf, 0, "Bob", false);
    end = pack_lsb(&mut buf, end, SEARCH_NATION, 5);
    end = pack_lsb(&mut buf, end, 2, 2);
    let stop = pack_lsb(&mut buf, end, SEARCH_NAME, 5);
    let stop = pack_lsb(&mut buf, stop, 0, 4);
    let mut offset = 0;
    let player = parse_player(&buf, &mut offset, 200, BitOrder::Lsb).unwrap();
    assert_eq!(player.name, "Bob");
    assert_eq!(player.nation, Some(2));
    assert_eq!(player.zone, None);
    assert_eq!(offset, stop);
}

#[test]
fn parse_player_reports_unknown_entry() {
    let mut buf = vec![0u8; 16];
    let end = pack_name(&mut buf, 0, "Al", false);
    pack_lsb(&mut buf, end, 0x07, 5);
    let mut offset = 0;
    let err = parse_player(&buf, &mut offset, 100, BitOrder::Lsb).unwrap_err();
    assert_eq!(invalid_packet_text(err), "unknown search entry 0x7");
    assert_eq!(offset, end + 5);
}

#[test]
fn parse_player_reports_missing_name() {
    let mut buf = vec![0u8; 16];
    let end = pack_lsb(&mut buf, 0, SEARCH_AREA, 5);
    let end = pack_lsb(&mut buf, end, 100, 10);
    let mut offset = 0;
    let err = parse_player(&buf, &mut offset, end, BitOrder::Lsb).unwrap_err();
    assert_eq!(invalid_packet_text(err), "player entry missing name");
    assert_eq!(offset, end);
}

fn list_packet(records: &[Vec<u8>]) -> Vec<u8> {
    let mut packet = vec![0u8; 24];
    for r in records {
        packet.push(r.len() as u8);
        packet.extend_from_slice(r);
    }
    let data_len = packet.len() as u16;
    packet.extend_from_slice(&[0u8; 20]);
    packet[0x08..0x0a].copy_from_slice(&data_len.to_le_bytes());
    packet[0x0b] = 0x80;
    packet
}

fn record(name: &str, flags2: Option<u32>, msb: bool) -> Vec<u8> {
    let mut buf = vec![0u8; 24];
    let mut end = pack_name(&mut buf, 0, name, msb);
    if let Some(f) = flags2 {
        let pack = if msb { pack_msb } else { pack_lsb };
        end = pack(&mut buf, end, SEARCH_FLAGS2, 5);
        end = pack(&mut buf, end, u64::from(f), 32);
    }
    buf.truncate((end + 7) / 8);
    buf
}

#[test]
fn list_keeps_order_and_drops_invalid_names() {
    let packet = list_packet(&[
        record("Alpha", None, false),
        record("B2", None, false),
        record("Gamma", Some(7), false),
    ]);
    let response = parse_search_list_packet(&packet).unwrap();
    assert!(!response.final_packet);
    let names: Vec<_> = response.players.iter().map(|p| p.name.as_str()).collect();
    assert_eq!(names, ["Alpha", "Gamma"]);
    assert_eq!(response.players[1].flags2, Some(7));
}

#[test]
fn list_stops_at_zero_size() {
    let mut packet = list_packet(&[record("Alpha", None, false)]);
    let data_len = u16::from_le_bytes([packet[8], packet[9]]);
    // a zero size byte, then a record that must not be read
    packet.insert(data_len as usize, 0);
    let more = record("Beta", None, false);
    for (i, b) in more.iter().enumerate() {
        packet.insert(data_len as usize + 1 + i, *b);
    }
    let new_len = data_len + 1 + more.len() as u16;
    packet[8..10].copy_from_slice(&new_len.to_le_bytes());
    let response = parse_search_list_packet(&packet).unwrap();
    assert_eq!(response.players.len(), 1);
}

#[test]
fn list_rejects_short_packet() {
    let err = parse_search_list_packet(&[0u8; 0x1f]).err().unwrap();
    assert_eq!(invalid_packet_text(err), "search list packet too short");
}

#[test]
fn list_rejects_other_response_types() {
    let mut packet = vec![0u8; 0x40];
    packet[0x0b] = 0x05;
    let err = parse_search_list_packet(&packet).err().unwrap();
    assert_eq!(invalid_packet_text(err), "unexpected response type 0x05");
    packet[0x0b] = 0xa1;
    let err = parse_search_list_packet(&packet).err().unwrap();
    assert_eq!(invalid_packet_text(err), "unexpected response type 0xa1");
}

#[test]
fn list_reports_record_unreadable_in_both_orders() {
    // a record holding only the unknown tag 0x1f in either bit order
    let packet = list_packet(&[vec![0xff, 0xff]]);
    let err = parse_search_list_packet(&packet).err().unwrap();
    assert_eq!(invalid_packet_text(err), "unknown search entry 0x1f");
}
