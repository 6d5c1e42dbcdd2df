//! The decisions of one "/sea all" exchange with the search server: the request to send,
//! what to do with each packet received, and when a failed read ends the search.

use vstd::prelude::*;

use crate::crypto::{open_response, sealed_request, SearchCrypto, Unsealed, INITIAL_KEY};
use crate::player::{OnlinePlayer, PlayerInfo};
use crate::request::{build_sea_all_request, sea_all_request};
use crate::search::{
    is_invalid_packet, list_error_message, parse_search_list_packet, player_infos, search_list,
    SearchError,
};

verus! {

/// The kinds of I/O failure that the search tells apart.
#[derive(Clone, Copy, Debug, PartialEq, Eq, Structural)]
pub enum IoErrorKind {
    /// The operation would have blocked.
    WouldBlock,
    /// The operation timed out.
    TimedOut,
    /// Any other failure.
    Other,
}

/// Whether an I/O failure of this kind is a timeout.
pub fn is_timeout_error(kind: IoErrorKind) -> (timeout: bool)
    ensures
        timeout == (kind == IoErrorKind::WouldBlock || kind == IoErrorKind::TimedOut),
{
    match kind {
        IoErrorKind::WouldBlock | IoErrorKind::TimedOut => true,
        IoErrorKind::Other => false,
    }
}

/// The state of a search: the cipher state and the players received so far.
pub struct SearchSession {
    crypto: SearchCrypto,
    players: Vec<OnlinePlayer>,
}

impl SearchSession {
    /// The cipher key of the session.
    pub closed spec fn key(&self) -> Seq<u8> {
        self.crypto@
    }

    /// The players received so far, in the order received.
    pub closed spec fn players(&self) -> Seq<PlayerInfo> {
        player_infos(self.players@)
    }

    /// A search that has sent nothing and received nothing.
    pub fn new() -> (session: Self)
        ensures
            session.key() == INITIAL_KEY@,
            session.players() == Seq::<PlayerInfo>::empty(),
    {
        let session = SearchSession { crypto: SearchCrypto::new(), players: Vec::new() };
        assert(session.players() =~= Seq::<PlayerInfo>::empty());
        session
    }

    /// The encrypted "/sea all" request to send.
    pub fn request(&mut self) -> (request: Vec<u8>)
        ensures
            final(self).key() == old(self).key(),
            final(self).players() == old(self).players(),
            request@ == sealed_request(old(self).key(), sea_all_request()),
    {
        match self.crypto.encrypt(build_sea_all_request()) {
            Ok(request) => request,
            Err(_) => {
                // the request is 0x4c bytes long, so the cipher accepts it
                assert(false);
                Vec::new()
            },
        }
    }

    /// Decrypts a packet received from the server.
    pub fn open(&mut self, packet: Vec<u8>) -> (res: Result<Vec<u8>, SearchError>)
        ensures
            final(self).key() == open_response(old(self).key(), packet@).0,
            final(self).players() == old(self).players(),
            res matches Ok(q) ==> open_response(old(self).key(), packet@).1 == Unsealed::Opened(
                q@,
            ),
            res matches Err(e) ==> (open_response(old(self).key(), packet@).1
                == Unsealed::TooShort && is_invalid_packet(e, "packet too short to decrypt"@)) || (
            open_response(old(self).key(), packet@).1 == Unsealed::BadHash && is_invalid_packet(
                e,
                "MD5 validation failed"@,
            )),
    {
        self.crypto.decrypt(packet)
    }

    /// Takes in the players of a decrypted packet; says whether it was the last packet of
    /// the answer.
    pub fn accept(&mut self, decoded: &[u8]) -> (res: Result<bool, SearchError>)
        requires
            decoded@.len() * 8 + 4096 <= usize::MAX,
        ensures
            final(self).key() == old(self).key(),
            res matches Ok(last) ==> search_list(decoded@) matches Ok((l, listed)) && last == l
                && final(self).players() == old(self).players() + listed,
            res matches Err(e) ==> search_list(decoded@) matches Err(le) && is_invalid_packet(
                e,
                list_error_message(le),
            ) && final(self).players() == old(self).players(),
            search_list(decoded@) is Ok ==> res is Ok,
    {
        match parse_search_list_packet(decoded) {
            Ok(response) => {
                let mut received = response.players;
                let ghost before = player_infos(self.players@);
                let ghost more = player_infos(received@);
                self.players.append(&mut received);
                assert(player_infos(self.players@) =~= before + more);
                Ok(response.final_packet)
            },
            Err(e) => Err(e),
        }
    }

    /// Whether a failed read ends the search with the players received so far, rather than
    /// failing it: only an I/O timeout after at least one player was received does. `io`
    /// is the kind of I/O failure, or `None` when the read failed otherwise.
    pub fn read_failure_ends_search(&self, io: Option<IoErrorKind>) -> (ends: bool)
        ensures
            ends == (io matches Some(kind) && self.players().len() > 0 && (kind
                == IoErrorKind::WouldBlock || kind == IoErrorKind::TimedOut)),
    {
        match io {
            Some(kind) => !self.players.is_empty() && is_timeout_error(kind),
            None => false,
        }
    }

    /// The players received, in the order received.
    pub fn into_players(self) -> (players: Vec<OnlinePlayer>)
        ensures
            player_infos(players@) == self.players(),
    {
        self.players
    }
}

/// Whether the player is in zone `zone`.
pub open spec fn in_zone(zone: u16) -> spec_fn(PlayerInfo) -> bool {
    |p: PlayerInfo| p.zone == Some(zone)
}

/// The players that are in zone `zone`, in their order.
pub fn players_in_zone(players: Vec<OnlinePlayer>, zone: u16) -> (kept: Vec<OnlinePlayer>)
    ensures
        player_infos(kept@) == player_infos(players@).filter(in_zone(zone)),
{
    let ghost all = players@;
    let mut kept: Vec<OnlinePlayer> = Vec::new();
    for player in it: players.into_iter()
        invariant
            it.seq() == all,
            player_infos(kept@) == player_infos(all.take(it.index() as int)).filter(in_zone(zone)),
    {
        let ghost i = it.index() as int;
        let ghost before = player_infos(all.take(i));
        assert(player_infos(all.take(i + 1)) =~= before.push(player@));
        reveal_with_fuel(Seq::<PlayerInfo>::filter, 1);
        assert(before.push(player@).drop_last() =~= before);
        let ghost kept_before = player_infos(kept@);
        if player.zone == Some(zone) {
            kept.push(player);
            assert(player_infos(kept@) =~= kept_before.push(player@));
        }
    }
    assert(all.take(all.len() as int) =~= all);
    kept
}

} // verus!
