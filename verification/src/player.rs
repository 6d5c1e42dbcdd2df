//! The players listed by the search server.

use vstd::prelude::*;
use vstd::string::StrSliceExecFns;

verus! {

/// One player of a search result, with every field the server may send.
#[derive(Debug, Clone, PartialEq, Eq)]
pub struct OnlinePlayer {
    pub id: Option<u32>,
    pub name: String,
    pub zone: Option<u16>,
    pub nation: Option<u8>,
    pub main_job: Option<u8>,
    pub main_level: Option<u8>,
    pub sub_job: Option<u8>,
    pub sub_level: Option<u8>,
    pub race: Option<u8>,
    pub rank: Option<u8>,
    pub flags1: Option<u32>,
    pub flags2: Option<u32>,
    pub languages: Option<u16>,
}

/// The content of an [`OnlinePlayer`], with the name as a sequence of characters.
pub struct PlayerInfo {
    pub id: Option<u32>,
    pub name: Seq<char>,
    pub zone: Option<u16>,
    pub nation: Option<u8>,
    pub main_job: Option<u8>,
    pub main_level: Option<u8>,
    pub sub_job: Option<u8>,
    pub sub_level: Option<u8>,
    pub race: Option<u8>,
    pub rank: Option<u8>,
    pub flags1: Option<u32>,
    pub flags2: Option<u32>,
    pub languages: Option<u16>,
}

impl View for OnlinePlayer {
    type V = PlayerInfo;

    open spec fn view(&self) -> PlayerInfo {
        PlayerInfo {
            id: self.id,
            name: self.name@,
            zone: self.zone,
            nation: self.nation,
            main_job: self.main_job,
            main_level: self.main_level,
            sub_job: self.sub_job,
            sub_level: self.sub_level,
            race: self.race,
            rank: self.rank,
            flags1: self.flags1,
            flags2: self.flags2,
            languages: self.languages,
        }
    }
}

/// A player about whom nothing is known yet: no name and no fields.
pub open spec fn blank_player() -> PlayerInfo {
    PlayerInfo {
        id: None,
        name: Seq::empty(),
        zone: None,
        nation: None,
        main_job: None,
        main_level: None,
        sub_job: None,
        sub_level: None,
        race: None,
        rank: None,
        flags1: None,
        flags2: None,
        languages: None,
    }
}

impl OnlinePlayer {
    /// A player with an empty name and every field absent.
    pub fn new() -> (player: Self)
        ensures
            player@ == blank_player(),
    {
        OnlinePlayer {
            id: None,
            name: String::new(),
            zone: None,
            nation: None,
            main_job: None,
            main_level: None,
            sub_job: None,
            sub_level: None,
            race: None,
            rank: None,
            flags1: None,
            flags2: None,
            languages: None,
        }
    }
}

/// One character of a valid player name: an ASCII letter.
pub open spec fn is_name_letter(c: char) -> bool {
    ('A' <= c && c <= 'Z') || ('a' <= c && c <= 'z')
}

/// A valid player name is non-empty and made of ASCII letters only.
pub open spec fn valid_player_name(name: Seq<char>) -> bool {
    name.len() > 0 && forall|i: int| 0 <= i < name.len() ==> is_name_letter(#[trigger] name[i])
}

/// Whether `name` is non-empty and consists of ASCII letters only.
pub fn is_valid_player_name(name: &str) -> (valid: bool)
    ensures
        valid == valid_player_name(name@),
{
    let len = name.unicode_len();
    let mut i: usize = 0;
    while i < len
        invariant
            len == name@.len(),
            i <= len,
            forall|j: int| 0 <= j < i ==> is_name_letter(#[trigger] name@[j]),
        decreases len - i,
    {
        let c = name.get_char(i);
        if !(('A' <= c && c <= 'Z') || ('a' <= c && c <= 'z')) {
            return false;
        }
        i += 1;
    }
    len > 0
}

} // verus!
