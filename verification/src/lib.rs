//! Search-server client logic for Final Fantasy XI private servers
//! (LandSandBoat and Horizon XI): request framing, the search-server cipher,
//! and decoding of the bit-packed "/sea all" player list.

pub mod bits;
pub mod blowfish;
mod blowfish_consts;
pub mod bytes;
pub mod crypto;
pub mod display;
pub mod names;
pub mod player;
pub mod request;
pub mod search;
pub mod session;
pub mod table;
pub mod text;

pub use crate::bits::{unpack_bits, unpack_bits_le, unpack_bits_msb, BitOrder};
pub use crate::blowfish::XiBlowfish;
pub use crate::crypto::{validate_hash, Direction, SearchCrypto, HEADER_LEN, INITIAL_KEY, IXFF};
pub use crate::display::{format_job_pair, format_optional_pair, format_zone, parse_zone_id};
pub use crate::player::{is_valid_player_name, OnlinePlayer};
pub use crate::request::{
    build_sea_all_request, packet_length, MAX_PACKET_LEN, SEARCH_REQUEST_LEN, TCP_SEARCH_ALL,
};
pub use crate::search::{
    parse_player, parse_search_list_packet, SearchError, SearchListResponse, HASH_LEN,
    KEY_TRAILER_LEN, SEARCH_AREA, SEARCH_COMMENT, SEARCH_FLAGS1, SEARCH_FLAGS2, SEARCH_ID,
    SEARCH_JOB, SEARCH_LANGUAGE, SEARCH_LEVEL, SEARCH_NAME, SEARCH_NATION, SEARCH_RACE,
    SEARCH_RANK, SEARCH_UNK0X0E,
};
pub use crate::session::{is_timeout_error, players_in_zone, IoErrorKind, SearchSession};
pub use crate::table::{column_width, player_row, render_player_table, PlayerRow};
pub use crate::text::packet_dump_lines;
