//! Decoding the search server's "/sea all" player list.

use vstd::prelude::*;
use vstd::string::StringExecFns;

use crate::bits::{field, lemma_field_bound, unpack_bits, BitOrder};
use crate::bytes::{read_u16_le, spec_read_u16_le};
use crate::player::{blank_player, is_valid_player_name, valid_player_name, OnlinePlayer, PlayerInfo};
use crate::text::{hex, hex2, push_digits};

verus! {

/// The field tags that open each entry of a player record.
pub const SEARCH_NAME: u64 = 0x00;
pub const SEARCH_AREA: u64 = 0x01;
pub const SEARCH_NATION: u64 = 0x02;
pub const SEARCH_JOB: u64 = 0x03;
pub const SEARCH_LEVEL: u64 = 0x04;
pub const SEARCH_RACE: u64 = 0x05;
pub const SEARCH_FLAGS1: u64 = 0x06;
pub const SEARCH_ID: u64 = 0x08;
pub const SEARCH_UNK0X0E: u64 = 0x0E;
pub const SEARCH_RANK: u64 = 0x10;
pub const SEARCH_COMMENT: u64 = 0x11;
pub const SEARCH_FLAGS2: u64 = 0x16;
pub const SEARCH_LANGUAGE: u64 = 0x17;

/// `std::io::Error`, which the library only carries, never looks into.
#[verifier::external_type_specification]
#[verifier::external_body]
pub struct ExIoError(std::io::Error);

/// What can go wrong while querying the search server.
#[derive(Debug)]
pub enum SearchError {
    /// The connection failed.
    Io(std::io::Error),
    /// A packet was malformed; the text says how.
    InvalidPacket(String),
    /// The packet cipher failed; the text says how.
    Crypto(String),
}

/// `e` is an invalid-packet error whose text is `msg`.
pub open spec fn is_invalid_packet(e: SearchError, msg: Seq<char>) -> bool {
    e matches SearchError::InvalidPacket(m) && m@ == msg
}

/// The name stored as `len` seven-bit characters from bit `at`.
pub open spec fn name_chars(packet: Seq<u8>, order: BitOrder, at: nat, len: nat) -> Seq<char> {
    Seq::new(len, |i: int| (field(packet, order, (at + 7 * i) as nat, 7) as u8) as char)
}

/// What one entry of a player record does.
pub enum EntryStep {
    /// The entry was read; the record goes on at the given bit.
    Next(nat, PlayerInfo),
    /// A second, empty name ends the record at the given bit.
    End(nat, PlayerInfo),
    /// The tag (second) is none of the known ones; reading stopped at the given bit.
    Unknown(nat, nat),
}

/// Reads the entry of a player record at bit `offset`: a five-bit tag and the field it
/// announces.
#[verifier::opaque]
pub open spec fn entry_step(packet: Seq<u8>, order: BitOrder, offset: nat, player: PlayerInfo) -> EntryStep {
    let tag = field(packet, order, offset, 5);
    let at = offset + 5;
    let f = |start: nat, width: nat| field(packet, order, start, width);
    if tag == SEARCH_NAME {
        let len = f(at, 4);
        if len == 0 && player.name.len() > 0 {
            EntryStep::End(at + 4, player)
        } else {
            EntryStep::Next(
                at + 4 + 7 * len,
                PlayerInfo { name: name_chars(packet, order, at + 4, len), ..player },
            )
        }
    } else if tag == SEARCH_AREA {
        EntryStep::Next(at + 10, PlayerInfo { zone: Some(f(at, 10) as u16), ..player })
    } else if tag == SEARCH_NATION {
        EntryStep::Next(at + 2, PlayerInfo { nation: Some(f(at, 2) as u8), ..player })
    } else if tag == SEARCH_JOB {
        EntryStep::Next(
            at + 10,
            PlayerInfo {
                main_job: Some(f(at, 5) as u8),
                sub_job: Some(f(at + 5, 5) as u8),
                ..player
            },
        )
    } else if tag == SEARCH_LEVEL {
        EntryStep::Next(
            at + 16,
            PlayerInfo {
                main_level: Some(f(at, 8) as u8),
                sub_level: Some(f(at + 8, 8) as u8),
                ..player
            },
        )
    } else if tag == SEARCH_RACE {
        EntryStep::Next(at + 4, PlayerInfo { race: Some(f(at, 4) as u8), ..player })
    } else if tag == SEARCH_RANK {
        EntryStep::Next(at + 8, PlayerInfo { rank: Some(f(at, 8) as u8), ..player })
    } else if tag == SEARCH_FLAGS1 {
        EntryStep::Next(at + 16, PlayerInfo { flags1: Some(f(at, 16) as u32), ..player })
    } else if tag == SEARCH_ID {
        EntryStep::Next(at + 20, PlayerInfo { id: Some(f(at, 20) as u32), ..player })
    } else if tag == SEARCH_UNK0X0E || tag == SEARCH_COMMENT {
        EntryStep::Next(at + 32, player)
    } else if tag == SEARCH_FLAGS2 {
        EntryStep::Next(at + 32, PlayerInfo { flags2: Some(f(at, 32) as u32), ..player })
    } else if tag == SEARCH_LANGUAGE {
        EntryStep::Next(at + 16, PlayerInfo { languages: Some(f(at, 16) as u16), ..player })
    } else {
        EntryStep::Unknown(at, tag)
    }
}

/// An entry moves the reading position forward by at least 7 and at most 114 bits.
pub proof fn lemma_entry_step_advance(packet: Seq<u8>, order: BitOrder, offset: nat, player: PlayerInfo)
    ensures
        entry_step(packet, order, offset, player) matches EntryStep::Next(o, _) ==> offset + 7
            <= o <= offset + 114,
        entry_step(packet, order, offset, player) matches EntryStep::End(o, _) ==> o == offset + 9,
        entry_step(packet, order, offset, player) matches EntryStep::Unknown(o, _) ==> o == offset + 5,
{
    reveal(entry_step);
    lemma_field_bound(packet, order, offset + 5, 4);
    vstd::arithmetic::power2::lemma2_to64();
}

/// A name entry: a four-bit length and that many seven-bit characters; an empty name after
/// a name ends the record.
pub proof fn lemma_entry_step_name(packet: Seq<u8>, order: BitOrder, offset: nat, player: PlayerInfo)
    requires
        field(packet, order, offset, 5) == SEARCH_NAME,
    ensures
        ({
            let len = field(packet, order, offset + 5, 4);
            entry_step(packet, order, offset, player) == if len == 0 && player.name.len() > 0 {
                EntryStep::End(offset + 9, player)
            } else {
                EntryStep::Next(
                    offset + 9 + 7 * len,
                    PlayerInfo { name: name_chars(packet, order, offset + 9, len), ..player },
                )
            }
        }),
{
    reveal(entry_step);
}

/// How reading the fields of a player record ends.
pub enum FieldsEnd {
    /// The record ended at the given bit with the given fields.
    Done(nat, PlayerInfo),
    /// An unknown tag (second) was met; reading stopped at the given bit.
    Unknown(nat, nat),
}

/// Reads entries from bit `offset` while a whole tag fits before bit `end`.
pub open spec fn read_fields(packet: Seq<u8>, order: BitOrder, offset: nat, end: nat, player: PlayerInfo) -> FieldsEnd
    decreases end + 128 - offset,
{
    if offset + 5 > end {
        FieldsEnd::Done(offset, player)
    } else {
        proof {
            lemma_entry_step_advance(packet, order, offset, player);
        }
        match entry_step(packet, order, offset, player) {
            EntryStep::End(o, p) => FieldsEnd::Done(o, p),
            EntryStep::Unknown(o, tag) => FieldsEnd::Unknown(o, tag),
            EntryStep::Next(o, p) => read_fields(packet, order, o, end, p),
        }
    }
}

/// Why a player record could not be read.
pub enum PlayerError {
    /// An entry's tag (the value) is unknown.
    UnknownEntry(nat),
    /// The record holds no name.
    MissingName,
}

/// The text that reports a [`PlayerError`].
pub open spec fn player_error_message(e: PlayerError) -> Seq<char> {
    match e {
        PlayerError::UnknownEntry(tag) => "unknown search entry 0x"@ + hex(tag),
        PlayerError::MissingName => "player entry missing name"@,
    }
}

/// The player record read from bit `offset` up to bit `end`, and the bit where reading
/// stopped.
pub open spec fn player_record(packet: Seq<u8>, order: BitOrder, offset: nat, end: nat) -> (nat, Result<PlayerInfo, PlayerError>) {
    match read_fields(packet, order, offset, end, blank_player()) {
        FieldsEnd::Done(o, p) => (
            o,
            if p.name.len() == 0 {
                Err(PlayerError::MissingName)
            } else {
                Ok(p)
            },
        ),
        FieldsEnd::Unknown(o, tag) => (o, Err(PlayerError::UnknownEntry(tag))),
    }
}

/// Reads the field announced by `tag`, a tag other than a name read at bit `tag_at`, into
/// `player`; gives the bit after the field, or `None` when the tag is unknown.
fn read_field_entry(
    packet: &[u8],
    tag_at: usize,
    tag: u64,
    bit_order: BitOrder,
    player: &mut OnlinePlayer,
) -> (next: Option<usize>)
    requires
        tag == field(packet@, bit_order, tag_at as nat, 5),
        tag != SEARCH_NAME,
        tag_at + 5 + 32 <= usize::MAX,
    ensures
        match entry_step(packet@, bit_order, tag_at as nat, old(player)@) {
            EntryStep::Next(o, p) => next == Some(o as usize) && final(player)@ == p,
            EntryStep::Unknown(o, t) => {
                &&& next is None
                &&& o == tag_at + 5
                &&& t == tag
                &&& final(player)@ == old(player)@
            },
            EntryStep::End(_, _) => false,
        },
{
    reveal(entry_step);
    let pos = tag_at + 5;
    if tag == SEARCH_AREA {
        player.zone = Some(unpack_bits(packet, pos, 10, bit_order) as u16);
        Some(pos + 10)
    } else if tag == SEARCH_NATION {
        player.nation = Some(unpack_bits(packet, pos, 2, bit_order) as u8);
        Some(pos + 2)
    } else if tag == SEARCH_JOB {
        player.main_job = Some(unpack_bits(packet, pos, 5, bit_order) as u8);
        player.sub_job = Some(unpack_bits(packet, pos + 5, 5, bit_order) as u8);
        Some(pos + 10)
    } else if tag == SEARCH_LEVEL {
        player.main_level = Some(unpack_bits(packet, pos, 8, bit_order) as u8);
        player.sub_level = Some(unpack_bits(packet, pos + 8, 8, bit_order) as u8);
        Some(pos + 16)
    } else if tag == SEARCH_RACE {
        player.race = Some(unpack_bits(packet, pos, 4, bit_order) as u8);
        Some(pos + 4)
    } else if tag == SEARCH_RANK {
        player.rank = Some(unpack_bits(packet, pos, 8, bit_order) as u8);
        Some(pos + 8)
    } else if tag == SEARCH_FLAGS1 {
        player.flags1 = Some(unpack_bits(packet, pos, 16, bit_order) as u32);
        Some(pos + 16)
    } else if tag == SEARCH_ID {
        player.id = Some(unpack_bits(packet, pos, 20, bit_order) as u32);
        Some(pos + 20)
    } else if tag == SEARCH_UNK0X0E || tag == SEARCH_COMMENT || tag == SEARCH_FLAGS2 {
        let value = unpack_bits(packet, pos, 32, bit_order) as u32;
        if tag == SEARCH_FLAGS2 {
            player.flags2 = Some(value);
        }
        Some(pos + 32)
    } else if tag == SEARCH_LANGUAGE {
        player.languages = Some(unpack_bits(packet, pos, 16, bit_order) as u16);
        Some(pos + 16)
    } else {
        None
    }
}

/// Reads a name of `len` seven-bit characters starting at bit `at`.
fn read_name(packet: &[u8], at: usize, len: usize, bit_order: BitOrder) -> (name: String)
    requires
        at + 7 * len <= usize::MAX,
    ensures
        name@ == name_chars(packet@, bit_order, at as nat, len as nat),
{
    let mut name = String::new();
    let mut pos = at;
    for i in 0..len
        invariant
            pos == at + 7 * i,
            at + 7 * len <= usize::MAX,
            name@ == name_chars(packet@, bit_order, at as nat, len as nat).take(i as int),
    {
        let c = (unpack_bits(packet, pos, 7, bit_order) as u8) as char;
        name.push(c);
        pos += 7;
        assert(name@ =~= name_chars(packet@, bit_order, at as nat, len as nat).take(i + 1));
    }
    assert(name@ =~= name_chars(packet@, bit_order, at as nat, len as nat));
    name
}

/// Reads one player record starting at bit `*offset`, reading entries while a whole tag
/// fits before bit `entity_end_bits`; `*offset` is left where reading stopped.
pub fn parse_player(
    packet: &[u8],
    offset: &mut usize,
    entity_end_bits: usize,
    bit_order: BitOrder,
) -> (res: Result<OnlinePlayer, SearchError>)
    requires
        *old(offset) + 5 <= usize::MAX,
        entity_end_bits + 128 <= usize::MAX,
    ensures
        *final(offset) == player_record(packet@, bit_order, *old(offset) as nat, entity_end_bits as nat).0,
        res matches Ok(p) ==> player_record(packet@, bit_order, *old(offset) as nat, entity_end_bits as nat).1 == Ok::<PlayerInfo, PlayerError>(p@),
        res matches Err(e) ==> player_record(packet@, bit_order, *old(offset) as nat, entity_end_bits as nat).1 matches Err(pe)
            && is_invalid_packet(e, player_error_message(pe)),
        player_record(packet@, bit_order, *old(offset) as nat, entity_end_bits as nat).1 is Ok ==> res is Ok,
{
    let ghost start = *offset as nat;
    let ghost end = entity_end_bits as nat;
    let mut pos: usize = *offset;
    let mut player = OnlinePlayer::new();
    while pos + 5 <= entity_end_bits
        invariant_except_break
            read_fields(packet@, bit_order, start, end, blank_player()) == read_fields(packet@, bit_order, pos as nat, end, player@),
        invariant
            entity_end_bits + 128 <= usize::MAX,
            pos + 5 <= usize::MAX,
            end == entity_end_bits,
            start == *old(offset),
            pos <= entity_end_bits + 114 || pos == start,
        ensures
            read_fields(packet@, bit_order, start, end, blank_player()) == FieldsEnd::Done(pos as nat, player@),
        decreases entity_end_bits + 128 - pos,
    {
        proof {
            lemma_entry_step_advance(packet@, bit_order, pos as nat, player@);
        }
        let ghost step = entry_step(packet@, bit_order, pos as nat, player@);
        let entry = unpack_bits(packet, pos, 5, bit_order);
        pos += 5;
        if entry == SEARCH_NAME {
            proof {
                lemma_entry_step_name(packet@, bit_order, (pos - 5) as nat, player@);
            }
            let len = unpack_bits(packet, pos, 4, bit_order) as usize;
            pos += 4;
            if len == 0 && !player.name.as_str().is_empty() {
                break;
            }
            proof {
                lemma_field_bound(packet@, bit_order, (pos - 4) as nat, 4);
                vstd::arithmetic::power2::lemma2_to64();
            }
            player.name = read_name(packet, pos, len, bit_order);
            pos += 7 * len;
        } else {
            match read_field_entry(packet, pos - 5, entry, bit_order, &mut player) {
                Some(next) => {
                    pos = next;
                },
                None => {
                    *offset = pos;
                    let mut msg = String::from_str("unknown search entry 0x");
                    push_digits(&mut msg, entry, 16);
                    return Err(SearchError::InvalidPacket(msg));
                },
            }
        }
        assert(step matches EntryStep::Next(o, p) && o == pos && p == player@);
    }
    *offset = pos;
    if player.name.as_str().is_empty() {
        return Err(SearchError::InvalidPacket(String::from_str("player entry missing name")));
    }
    Ok(player)
}


/// Bytes of the MD5 hash that precedes the key trailer of every packet.
pub const HASH_LEN: usize = 16;

/// Bytes of the key trailer that ends every packet.
pub const KEY_TRAILER_LEN: usize = 4;

/// The record for one player found by the search: read least-significant-bit first, and
/// when that fails, most-significant-bit first.
pub open spec fn entity_player(packet: Seq<u8>, start: nat, end: nat) -> Result<PlayerInfo, PlayerError> {
    match player_record(packet, BitOrder::Lsb, start, end).1 {
        Ok(p) => Ok(p),
        Err(_) => player_record(packet, BitOrder::Msb, start, end).1,
    }
}

/// The players whose records lie from bit `offset` on, for records whose size byte lies
/// before byte `payload_end`. Each record is a size byte `n` followed by `n` bytes; a size
/// of zero ends the list; players whose names are not valid are left out.
pub open spec fn list_players(packet: Seq<u8>, offset: nat, payload_end: nat) -> Result<Seq<PlayerInfo>, PlayerError>
    decreases if offset / 8 < payload_end { payload_end - offset / 8 } else { 0 },
{
    if offset / 8 >= payload_end {
        Ok(Seq::empty())
    } else {
        let size_offset = offset / 8;
        let size = packet[size_offset as int] as nat;
        if size == 0 {
            Ok(Seq::empty())
        } else {
            let end = (size_offset + size + 1) * 8;
            match entity_player(packet, offset + 8, end) {
                Err(e) => Err(e),
                Ok(p) => match list_players(packet, end, payload_end) {
                    Err(e) => Err(e),
                    Ok(rest) => Ok(
                        if valid_player_name(p.name) {
                            seq![p] + rest
                        } else {
                            rest
                        },
                    ),
                },
            }
        }
    }
}

/// Why a search-list packet could not be read.
pub enum ListError {
    /// The packet is shorter than 0x20 bytes.
    TooShort,
    /// The response-type byte (the value) is not 0x80.
    UnexpectedType(u8),
    /// A player record could not be read.
    Player(PlayerError),
}

/// The text that reports a [`ListError`].
pub open spec fn list_error_message(e: ListError) -> Seq<char> {
    match e {
        ListError::TooShort => "search list packet too short"@,
        ListError::UnexpectedType(t) => "unexpected response type 0x"@ + hex2(t as nat),
        ListError::Player(pe) => player_error_message(pe),
    }
}

/// Where the player records of a search-list packet end: at the data length of its
/// header, and before its hash and key trailer.
pub open spec fn payload_end(packet: Seq<u8>) -> nat {
    let data_len = spec_read_u16_le(packet, 0x08) as nat;
    let limit = if packet.len() >= 20 { (packet.len() - 20) as nat } else { 0 };
    if data_len <= limit { data_len } else { limit }
}

/// A decrypted search-list packet: whether it is the last of the answer (bit 7 of byte
/// 0x0a), and the players it lists, whose records start at byte 24.
pub open spec fn search_list(packet: Seq<u8>) -> Result<(bool, Seq<PlayerInfo>), ListError> {
    if packet.len() < 0x20 {
        Err(ListError::TooShort)
    } else if packet[0x0b] != 0x80 {
        Err(ListError::UnexpectedType(packet[0x0b]))
    } else {
        match list_players(packet, 192, payload_end(packet)) {
            Err(e) => Err(ListError::Player(e)),
            Ok(players) => Ok((packet[0x0a] & 0x80 != 0, players)),
        }
    }
}

/// No record starts at or after the payload end: a walk that begins there lists nobody,
/// whatever the packet holds from there on.
pub proof fn lemma_no_record_past_payload_end(packet: Seq<u8>, offset: nat, payload_end: nat)
    requires
        offset / 8 >= payload_end,
    ensures
        list_players(packet, offset, payload_end) == Ok::<Seq<PlayerInfo>, PlayerError>(
            Seq::empty(),
        ),
{
}

/// Moving the payload end one byte further, over a zero byte, changes nothing: the byte at
/// the payload end is never read as a record's size.
pub proof fn lemma_payload_end_over_zero_byte(packet: Seq<u8>, offset: nat, payload_end: nat)
    requires
        payload_end < packet.len(),
        packet[payload_end as int] == 0,
    ensures
        list_players(packet, offset, payload_end + 1) == list_players(packet, offset, payload_end),
    decreases if offset / 8 < payload_end { payload_end - offset / 8 } else { 0 },
{
    if offset / 8 < payload_end {
        let size_offset = offset / 8;
        let size = packet[size_offset as int] as nat;
        if size != 0 {
            let end = (size_offset + size + 1) * 8;
            assert(end / 8 == size_offset + size + 1);
            lemma_payload_end_over_zero_byte(packet, end, payload_end);
        }
    }
}

/// A search-list packet whose data length leaves no room after the 24-byte header lists
/// nobody, whatever follows the data.
pub proof fn lemma_no_room_lists_nobody(packet: Seq<u8>)
    requires
        packet.len() >= 0x20,
        packet[0x0b] == 0x80,
        spec_read_u16_le(packet, 0x08) <= 24,
    ensures
        search_list(packet) == Ok::<(bool, Seq<PlayerInfo>), ListError>(
            (packet[0x0a] & 0x80 != 0, Seq::empty()),
        ),
{
    assert(payload_end(packet) <= 24);
}

/// Every player listed from bit `offset` on has a valid name.
proof fn lemma_list_players_named(packet: Seq<u8>, offset: nat, payload_end: nat)
    ensures
        list_players(packet, offset, payload_end) matches Ok(players) ==> forall|i: int|
            0 <= i < players.len() ==> valid_player_name(#[trigger] players[i].name),
    decreases if offset / 8 < payload_end { payload_end - offset / 8 } else { 0 },
{
    if offset / 8 < payload_end {
        let size_offset = offset / 8;
        let size = packet[size_offset as int] as nat;
        if size != 0 {
            let end = (size_offset + size + 1) * 8;
            assert(end / 8 == size_offset + size + 1);
            lemma_list_players_named(packet, end, payload_end);
            match (entity_player(packet, offset + 8, end), list_players(packet, end, payload_end)) {
                (Ok(p), Ok(rest)) => {
                    if valid_player_name(p.name) {
                        let all = seq![p] + rest;
                        assert forall|i: int| 0 <= i < all.len() implies valid_player_name(
                            #[trigger] all[i].name,
                        ) by {
                            if i > 0 {
                                assert(all[i] == rest[i - 1]);
                            }
                        }
                    }
                },
                _ => {},
            }
        }
    }
}

/// Every player that a search-list packet lists has a valid name: a non-empty run of
/// ASCII letters.
pub proof fn lemma_listed_names_valid(packet: Seq<u8>)
    ensures
        search_list(packet) matches Ok((_, players)) ==> forall|i: int|
            0 <= i < players.len() ==> valid_player_name(#[trigger] players[i].name),
{
    if packet.len() >= 0x20 && packet[0x0b] == 0x80 {
        lemma_list_players_named(packet, 192, payload_end(packet));
    }
}

/// The players of a list of [`OnlinePlayer`]s.
pub open spec fn player_infos(players: Seq<OnlinePlayer>) -> Seq<PlayerInfo> {
    players.map_values(|p: OnlinePlayer| p@)
}

/// One decrypted packet of the answer to a search.
pub struct SearchListResponse {
    /// Whether this is the last packet of the answer.
    pub final_packet: bool,
    /// The players listed in this packet.
    pub players: Vec<OnlinePlayer>,
}

/// Reads the players listed in a decrypted search-list packet.
pub fn parse_search_list_packet(packet: &[u8]) -> (res: Result<SearchListResponse, SearchError>)
    requires
        packet@.len() * 8 + 4096 <= usize::MAX,
    ensures
        res matches Ok(r) ==> search_list(packet@) == Ok::<(bool, Seq<PlayerInfo>), ListError>(
            (r.final_packet, player_infos(r.players@)),
        ),
        res matches Err(e) ==> search_list(packet@) matches Err(le) && is_invalid_packet(
            e,
            list_error_message(le),
        ),
        search_list(packet@) is Ok ==> res is Ok,
{
    if packet.len() < 0x20 {
        return Err(SearchError::InvalidPacket(String::from_str("search list packet too short")));
    }
    if packet[0x0b] != 0x80 {
        let mut msg = String::from_str("unexpected response type 0x");
        if packet[0x0b] < 16 {
            msg.push('0');
        }
        push_digits(&mut msg, packet[0x0b] as u64, 16);
        assert(msg@ =~= "unexpected response type 0x"@ + hex2(packet@[0x0b] as nat));
        return Err(SearchError::InvalidPacket(msg));
    }
    let data_len = read_u16_le(packet, 0x08) as usize;
    let limit = packet.len() - (HASH_LEN + KEY_TRAILER_LEN);
    let payload_end = if data_len <= limit {
        data_len
    } else {
        limit
    };
    let ghost pe = payload_end as nat;
    let mut offset: usize = 192;
    let mut players: Vec<OnlinePlayer> = Vec::new();
    while offset / 8 < payload_end
        invariant_except_break
            list_players(packet@, 192, pe) == match list_players(packet@, offset as nat, pe) {
                Ok(rest) => Ok(player_infos(players@) + rest),
                Err(e) => Err(e),
            },
        invariant
            pe == payload_end,
            pe == crate::search::payload_end(packet@),
            packet@.len() >= 0x20,
            packet@[0x0b] == 0x80,
            payload_end + 20 <= packet@.len(),
            packet@.len() * 8 + 4096 <= usize::MAX,
            offset <= (packet@.len() + 256) * 8,
        ensures
            list_players(packet@, 192, pe) == Ok::<Seq<PlayerInfo>, PlayerError>(player_infos(players@)),
        decreases if offset / 8 < payload_end { payload_end - offset / 8 } else { 0 },
    {
        let size_offset = offset / 8;
        let entity_size = packet[size_offset] as usize;
        if entity_size == 0 {
            assert(player_infos(players@) + Seq::<PlayerInfo>::empty() =~= player_infos(players@));
            break;
        }
        let entity_end = (size_offset + entity_size + 1) * 8;
        offset += 8;
        let player_start = offset;
        let player = match parse_player(packet, &mut offset, entity_end, BitOrder::Lsb) {
            Ok(p) => p,
            Err(_) => {
                offset = player_start;
                match parse_player(packet, &mut offset, entity_end, BitOrder::Msb) {
                    Ok(p) => p,
                    Err(e) => {
                        return Err(e);
                    },
                }
            },
        };
        let ghost before = player_infos(players@);
        if is_valid_player_name(player.name.as_str()) {
            players.push(player);
            assert(player_infos(players@) =~= before.push(player@));
        }
        offset = entity_end;
        assert(offset / 8 == size_offset + entity_size + 1);
        proof {
            match list_players(packet@, offset as nat, pe) {
                Ok(rest) => {
                    assert(before + (seq![player@] + rest) =~= before.push(player@) + rest);
                },
                Err(_) => {},
            }
        }
    }
    if offset / 8 >= payload_end {
        assert(player_infos(players@) + Seq::<PlayerInfo>::empty() =~= player_infos(players@));
    }
    Ok(SearchListResponse { final_packet: packet[0x0a] & 0x80 != 0, players })
}

} // verus!
