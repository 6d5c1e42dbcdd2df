//! The "/sea all" request and the framing of packets on the wire.

use vstd::prelude::*;
use vstd::string::StringExecFns;

use crate::bytes::{read_u16_le, spec_read_u16_le, spec_read_u32_le, write_u16_le, write_u32_le};
use crate::crypto::IXFF;
use crate::search::{is_invalid_packet, SearchError};
use crate::text::{decimal, push_digits};

verus! {

/// Bytes of a search request.
pub const SEARCH_REQUEST_LEN: usize = 0x4c;

/// The largest packet the client accepts from the server.
pub const MAX_PACKET_LEN: usize = 4096;

/// The search type of "/sea all".
pub const TCP_SEARCH_ALL: u8 = 0x00;

/// The "/sea all" request before encryption, byte by byte: its length 0x4c (little endian),
/// two zero bytes, the magic word "IXFF", the search header 0x13 0x00 0x80 with search type
/// "all", then the search parameters (0x02 at 0x10, 0x10 at 0x12, the words 60000, 60000,
/// 3, 3 and 0x10 from 0x14, 60000 at 0x30), zero elsewhere.
pub open spec fn sea_all_request() -> Seq<u8> {
    seq![
        0x4cu8, 0x00, 0x00, 0x00, 0x49, 0x58, 0x46, 0x46, 0x13, 0x00, 0x80, 0x00, 0x00, 0x00, 0x00, 0x00,
        0x02, 0x00, 0x10, 0x00, 0x60, 0xea, 0x00, 0x00, 0x60, 0xea, 0x00, 0x00, 0x03, 0x00, 0x00, 0x00,
        0x03, 0x00, 0x00, 0x00, 0x10, 0x00, 0x00, 0x00, 0x00, 0x00, 0x00, 0x00, 0x00, 0x00, 0x00, 0x00,
        0x60, 0xea, 0x00, 0x00, 0x00, 0x00, 0x00, 0x00, 0x00, 0x00, 0x00, 0x00, 0x00, 0x00, 0x00, 0x00,
        0x00, 0x00, 0x00, 0x00, 0x00, 0x00, 0x00, 0x00, 0x00, 0x00, 0x00, 0x00,
    ]
}

/// Whether byte `i` of the "/sea all" request lies in one of its fields.
pub open spec fn in_sea_all_field(i: int) -> bool {
    ||| 0 <= i < 2
    ||| 4 <= i < 0x0c
    ||| i == 0x10
    ||| i == 0x12
    ||| 0x14 <= i < 0x28
    ||| 0x30 <= i < 0x34
}

/// The fields of the "/sea all" request, read back as numbers: length 0x4c at byte 0, the
/// magic word at 4, the search header 0x13 at 8, 0x80 at 0x0a and the search type at 0x0b,
/// 0x02 at 0x10 and 0x10 at 0x12, the words 60000, 60000, 3, 3 and 0x10 from 0x14 on and
/// 60000 at 0x30; every byte outside these fields is zero.
pub proof fn lemma_sea_all_request_fields()
    ensures
        sea_all_request().len() == SEARCH_REQUEST_LEN,
        spec_read_u16_le(sea_all_request(), 0) == SEARCH_REQUEST_LEN,
        spec_read_u32_le(sea_all_request(), 4) == IXFF,
        spec_read_u16_le(sea_all_request(), 8) == 0x13,
        sea_all_request()[0x0a] == 0x80,
        sea_all_request()[0x0b] == TCP_SEARCH_ALL,
        sea_all_request()[0x10] == 0x02,
        sea_all_request()[0x12] == 0x10,
        spec_read_u32_le(sea_all_request(), 0x14) == 60_000,
        spec_read_u32_le(sea_all_request(), 0x18) == 60_000,
        spec_read_u32_le(sea_all_request(), 0x1c) == 3,
        spec_read_u32_le(sea_all_request(), 0x20) == 3,
        spec_read_u32_le(sea_all_request(), 0x24) == 0x10,
        spec_read_u32_le(sea_all_request(), 0x30) == 60_000,
        forall|i: int|
            0 <= i < SEARCH_REQUEST_LEN && !in_sea_all_field(i) ==> #[trigger] sea_all_request()[i]
                == 0,
{
    let r = sea_all_request();
    assert(spec_read_u16_le(r, 0) == 0x4c);
    assert(spec_read_u32_le(r, 4) == 0x4646_5849);
    assert(spec_read_u16_le(r, 8) == 0x13);
    assert(spec_read_u32_le(r, 0x14) == 60_000);
    assert(spec_read_u32_le(r, 0x18) == 60_000);
    assert(spec_read_u32_le(r, 0x1c) == 3);
    assert(spec_read_u32_le(r, 0x20) == 3);
    assert(spec_read_u32_le(r, 0x24) == 0x10);
    assert(spec_read_u32_le(r, 0x30) == 60_000);
    assert forall|i: int| 0 <= i < 0x4c && !in_sea_all_field(i) implies #[trigger] r[i] == 0 by {
        assert(r[i] == 0);
    }
}

/// Builds the "/sea all" request, before encryption.
pub fn build_sea_all_request() -> (packet: Vec<u8>)
    ensures
        packet@ == sea_all_request(),
{
    let mut packet = vec![0u8; SEARCH_REQUEST_LEN];
    assert(packet@ =~= Seq::new(SEARCH_REQUEST_LEN as nat, |i: int| 0u8));
    write_u16_le(&mut packet, 0, SEARCH_REQUEST_LEN as u16);
    write_u32_le(&mut packet, 4, IXFF);
    write_u16_le(&mut packet, 0x08, 0x13);
    packet[0x0a] = 0x80;
    packet[0x0b] = TCP_SEARCH_ALL;
    packet[0x10] = 0x02;
    packet[0x12] = 0x10;
    write_u32_le(&mut packet, 0x14, 60_000);
    write_u32_le(&mut packet, 0x18, 60_000);
    write_u32_le(&mut packet, 0x1c, 3);
    write_u32_le(&mut packet, 0x20, 3);
    write_u32_le(&mut packet, 0x24, 0x10);
    write_u32_le(&mut packet, 0x30, 60_000);
    packet
}

/// The length that a packet's first two bytes announce, when the client accepts it:
/// from 28 to 4096 bytes.
pub fn packet_length(prefix: [u8; 2]) -> (res: Result<usize, SearchError>)
    ensures
        ({
            let len = spec_read_u16_le(prefix@, 0);
            &&& res matches Ok(n) ==> n == len && 28 <= len <= MAX_PACKET_LEN
            &&& res matches Err(e) ==> is_invalid_packet(e, "bad length "@ + decimal(len as nat))
            &&& res is Ok <==> 28 <= len <= MAX_PACKET_LEN
        }),
{
    let len = read_u16_le(prefix.as_slice(), 0) as usize;
    if !(28 <= len && len <= MAX_PACKET_LEN) {
        let mut msg = String::from_str("bad length ");
        push_digits(&mut msg, len as u64, 10);
        return Err(SearchError::InvalidPacket(msg));
    }
    Ok(len)
}

} // verus!
