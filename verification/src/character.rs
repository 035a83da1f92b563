//! The closed character domain: 26 values with contiguous ids, canonical
//! display names, and recognized input aliases.

use vstd::prelude::*;

use crate::gamedata::{GameData, GameDataV};
use crate::parsable_enum::{GameDataCondition, Numbered, Parsable, ParsableEnumError};
use crate::strutil::str_eq;

verus! {

/// A playable character.
#[derive(Clone, Copy, Debug, PartialEq, Eq, Structural)]
pub enum Character {
    CaptainFalcon,
    DonkeyKong,
    Fox,
    MrGameAndWatch,
    Kirby,
    Bowser,
    Link,
    Luigi,
    Mario,
    Marth,
    Mewtwo,
    Ness,
    Peach,
    Pikachu,
    IceClimbers,
    Jigglypuff,
    Samus,
    Yoshi,
    Zelda,
    Sheik,
    Falco,
    YoungLink,
    DrMario,
    Roy,
    Pichu,
    Ganondorf,
}

/// An id inside the character domain.
pub open spec fn valid_char_id(id: int) -> bool {
    0 <= id < 26
}

impl Character {
    /// Numeric id of this character.
    pub open spec fn spec_id(self) -> int {
        match self {
            Character::CaptainFalcon => 0,
            Character::DonkeyKong => 1,
            Character::Fox => 2,
            Character::MrGameAndWatch => 3,
            Character::Kirby => 4,
            Character::Bowser => 5,
            Character::Link => 6,
            Character::Luigi => 7,
            Character::Mario => 8,
            Character::Marth => 9,
            Character::Mewtwo => 10,
            Character::Ness => 11,
            Character::Peach => 12,
            Character::Pikachu => 13,
            Character::IceClimbers => 14,
            Character::Jigglypuff => 15,
            Character::Samus => 16,
            Character::Yoshi => 17,
            Character::Zelda => 18,
            Character::Sheik => 19,
            Character::Falco => 20,
            Character::YoungLink => 21,
            Character::DrMario => 22,
            Character::Roy => 23,
            Character::Pichu => 24,
            Character::Ganondorf => 25,
        }
    }

    /// The character of a valid id; the lowest-id character otherwise.
    pub open spec fn spec_of_id(id: int) -> Character {
        if id == 1 { Character::DonkeyKong }
        else if id == 2 { Character::Fox }
        else if id == 3 { Character::MrGameAndWatch }
        else if id == 4 { Character::Kirby }
        else if id == 5 { Character::Bowser }
        else if id == 6 { Character::Link }
        else if id == 7 { Character::Luigi }
        else if id == 8 { Character::Mario }
        else if id == 9 { Character::Marth }
        else if id == 10 { Character::Mewtwo }
        else if id == 11 { Character::Ness }
        else if id == 12 { Character::Peach }
        else if id == 13 { Character::Pikachu }
        else if id == 14 { Character::IceClimbers }
        else if id == 15 { Character::Jigglypuff }
        else if id == 16 { Character::Samus }
        else if id == 17 { Character::Yoshi }
        else if id == 18 { Character::Zelda }
        else if id == 19 { Character::Sheik }
        else if id == 20 { Character::Falco }
        else if id == 21 { Character::YoungLink }
        else if id == 22 { Character::DrMario }
        else if id == 23 { Character::Roy }
        else if id == 24 { Character::Pichu }
        else if id == 25 { Character::Ganondorf }
        else { Character::CaptainFalcon }
    }

    /// Numeric id of this character.
    pub fn id(&self) -> (r: usize)
        ensures
            r as int == self.spec_id(),
            valid_char_id(r as int),
    {
        match self {
            Character::CaptainFalcon => 0,
            Character::DonkeyKong => 1,
            Character::Fox => 2,
            Character::MrGameAndWatch => 3,
            Character::Kirby => 4,
            Character::Bowser => 5,
            Character::Link => 6,
            Character::Luigi => 7,
            Character::Mario => 8,
            Character::Marth => 9,
            Character::Mewtwo => 10,
            Character::Ness => 11,
            Character::Peach => 12,
            Character::Pikachu => 13,
            Character::IceClimbers => 14,
            Character::Jigglypuff => 15,
            Character::Samus => 16,
            Character::Yoshi => 17,
            Character::Zelda => 18,
            Character::Sheik => 19,
            Character::Falco => 20,
            Character::YoungLink => 21,
            Character::DrMario => 22,
            Character::Roy => 23,
            Character::Pichu => 24,
            Character::Ganondorf => 25,
        }
    }
}

impl Numbered for Character {
    open spec fn spec_num_values() -> usize {
        26
    }

    fn num_values() -> (n: usize) {
        26
    }
}

impl Parsable for Character {
    open spec fn spec_from_id(id: int) -> Option<Character> {
        if valid_char_id(id) {
            Some(Character::spec_of_id(id))
        } else {
            None
        }
    }

    open spec fn spec_name(self) -> Seq<char> {
        match self {
            Character::CaptainFalcon => "Captain Falcon"@,
            Character::DonkeyKong => "Donkey Kong"@,
            Character::Fox => "Fox"@,
            Character::MrGameAndWatch => "Mr. Game and Watch"@,
            Character::Kirby => "Kirby"@,
            Character::Bowser => "Bowser"@,
            Character::Link => "Link"@,
            Character::Luigi => "Luigi"@,
            Character::Mario => "Mario"@,
            Character::Marth => "Marth"@,
            Character::Mewtwo => "Mewtwo"@,
            Character::Ness => "Ness"@,
            Character::Peach => "Peach"@,
            Character::Pikachu => "Pikachu"@,
            Character::IceClimbers => "Ice Climbers"@,
            Character::Jigglypuff => "Jigglypuff"@,
            Character::Samus => "Samus"@,
            Character::Yoshi => "Yoshi"@,
            Character::Zelda => "Zelda"@,
            Character::Sheik => "Sheik"@,
            Character::Falco => "Falco"@,
            Character::YoungLink => "Young Link"@,
            Character::DrMario => "Dr. Mario"@,
            Character::Roy => "Roy"@,
            Character::Pichu => "Pichu"@,
            Character::Ganondorf => "Ganondorf"@,
        }
    }

    fn display_name(&self) -> (r: String) {
        match self {
            Character::CaptainFalcon => "Captain Falcon".to_owned(),
            Character::DonkeyKong => "Donkey Kong".to_owned(),
            Character::Fox => "Fox".to_owned(),
            Character::MrGameAndWatch => "Mr. Game and Watch".to_owned(),
            Character::Kirby => "Kirby".to_owned(),
            Character::Bowser => "Bowser".to_owned(),
            Character::Link => "Link".to_owned(),
            Character::Luigi => "Luigi".to_owned(),
            Character::Mario => "Mario".to_owned(),
            Character::Marth => "Marth".to_owned(),
            Character::Mewtwo => "Mewtwo".to_owned(),
            Character::Ness => "Ness".to_owned(),
            Character::Peach => "Peach".to_owned(),
            Character::Pikachu => "Pikachu".to_owned(),
            Character::IceClimbers => "Ice Climbers".to_owned(),
            Character::Jigglypuff => "Jigglypuff".to_owned(),
            Character::Samus => "Samus".to_owned(),
            Character::Yoshi => "Yoshi".to_owned(),
            Character::Zelda => "Zelda".to_owned(),
            Character::Sheik => "Sheik".to_owned(),
            Character::Falco => "Falco".to_owned(),
            Character::YoungLink => "Young Link".to_owned(),
            Character::DrMario => "Dr. Mario".to_owned(),
            Character::Roy => "Roy".to_owned(),
            Character::Pichu => "Pichu".to_owned(),
            Character::Ganondorf => "Ganondorf".to_owned(),
        }
    }
}

impl core::convert::TryFrom<usize> for Character {
    type Error = ParsableEnumError;

    fn try_from(num: usize) -> (r: Result<Character, ParsableEnumError>) {
        if num < 26 {
            Ok(Character::of_id(num))
        } else {
            Err(ParsableEnumError::TryFromError)
        }
    }
}

impl vstd::std_specs::convert::TryFromSpecImpl<usize> for Character {
    open spec fn obeys_try_from_spec() -> bool {
        true
    }

    open spec fn try_from_spec(v: usize) -> Result<Character, ParsableEnumError> {
        match Character::spec_from_id(v as int) {
            Some(c) => Ok(c),
            None => Err(ParsableEnumError::TryFromError),
        }
    }
}

impl Character {
    /// Executable twin of [`Character::spec_of_id`] for valid ids.
    pub fn of_id(id: usize) -> (r: Character)
        requires
            valid_char_id(id as int),
        ensures
            r == Character::spec_of_id(id as int),
    {
        match id {
            0 => Character::CaptainFalcon,
            1 => Character::DonkeyKong,
            2 => Character::Fox,
            3 => Character::MrGameAndWatch,
            4 => Character::Kirby,
            5 => Character::Bowser,
            6 => Character::Link,
            7 => Character::Luigi,
            8 => Character::Mario,
            9 => Character::Marth,
            10 => Character::Mewtwo,
            11 => Character::Ness,
            12 => Character::Peach,
            13 => Character::Pikachu,
            14 => Character::IceClimbers,
            15 => Character::Jigglypuff,
            16 => Character::Samus,
            17 => Character::Yoshi,
            18 => Character::Zelda,
            19 => Character::Sheik,
            20 => Character::Falco,
            21 => Character::YoungLink,
            22 => Character::DrMario,
            23 => Character::Roy,
            24 => Character::Pichu,
            _ => Character::Ganondorf,
        }
    }

    /// The character a lowercased display name or a recognized alias
    /// denotes, if any.
    pub open spec fn spec_from_name(s: Seq<char>) -> Option<Character> {
        if s == "captain falcon"@ || s == "falcon"@ { Some(Character::CaptainFalcon) }
        else if s == "donkey kong"@ || s == "dk"@ { Some(Character::DonkeyKong) }
        else if s == "fox"@ { Some(Character::Fox) }
        else if s == "mr. game and watch"@ || s == "mr game and watch"@ || s
            == "game and watch"@ || s == "gnw"@ { Some(Character::MrGameAndWatch) }
        else if s == "kirby"@ { Some(Character::Kirby) }
        else if s == "bowser"@ { Some(Character::Bowser) }
        else if s == "link"@ { Some(Character::Link) }
        else if s == "luigi"@ { Some(Character::Luigi) }
        else if s == "mario"@ { Some(Character::Mario) }
        else if s == "marth"@ { Some(Character::Marth) }
        else if s == "mewtwo"@ { Some(Character::Mewtwo) }
        else if s == "ness"@ { Some(Character::Ness) }
        else if s == "peach"@ { Some(Character::Peach) }
        else if s == "pikachu"@ { Some(Character::Pikachu) }
        else if s == "ice climbers"@ || s == "ics"@ || s == "ic"@ {
            Some(Character::IceClimbers)
        }
        else if s == "jigglypuff"@ || s == "puff"@ { Some(Character::Jigglypuff) }
        else if s == "samus"@ { Some(Character::Samus) }
        else if s == "yoshi"@ { Some(Character::Yoshi) }
        else if s == "zelda"@ { Some(Character::Zelda) }
        else if s == "sheik"@ { Some(Character::Sheik) }
        else if s == "falco"@ { Some(Character::Falco) }
        else if s == "young link"@ || s == "yl"@ { Some(Character::YoungLink) }
        else if s == "dr. mario"@ || s == "dr mario"@ || s == "doc"@ {
            Some(Character::DrMario)
        }
        else if s == "roy"@ { Some(Character::Roy) }
        else if s == "pichu"@ { Some(Character::Pichu) }
        else if s == "ganondorf"@ || s == "ganon"@ { Some(Character::Ganondorf) }
        else { None }
    }

    /// Parses a lowercased display name or alias.
    pub fn from_str(arg: &str) -> (r: Result<Character, ParsableEnumError>)
        ensures
            match r {
                Ok(c) => Character::spec_from_name(arg@) == Some(c),
                Err(e) => Character::spec_from_name(arg@) is None && e
                    == ParsableEnumError::FromStrError,
            },
    {
        if str_eq(arg, "captain falcon") || str_eq(arg, "falcon") {
            Ok(Character::CaptainFalcon)
        } else if str_eq(arg, "donkey kong") || str_eq(arg, "dk") {
            Ok(Character::DonkeyKong)
        } else if str_eq(arg, "fox") {
            Ok(Character::Fox)
        } else if str_eq(arg, "mr. game and watch") || str_eq(arg, "mr game and watch")
            || str_eq(arg, "game and watch") || str_eq(arg, "gnw") {
            Ok(Character::MrGameAndWatch)
        } else if str_eq(arg, "kirby") {
            Ok(Character::Kirby)
        } else if str_eq(arg, "bowser") {
            Ok(Character::Bowser)
        } else if str_eq(arg, "link") {
            Ok(Character::Link)
        } else if str_eq(arg, "luigi") {
            Ok(Character::Luigi)
        } else if str_eq(arg, "mario") {
            Ok(Character::Mario)
        } else if str_eq(arg, "marth") {
            Ok(Character::Marth)
        } else if str_eq(arg, "mewtwo") {
            Ok(Character::Mewtwo)
        } else if str_eq(arg, "ness") {
            Ok(Character::Ness)
        } else if str_eq(arg, "peach") {
            Ok(Character::Peach)
        } else if str_eq(arg, "pikachu") {
            Ok(Character::Pikachu)
        } else if str_eq(arg, "ice climbers") || str_eq(arg, "ics") || str_eq(arg, "ic") {
            Ok(Character::IceClimbers)
        } else if str_eq(arg, "jigglypuff") || str_eq(arg, "puff") {
            Ok(Character::Jigglypuff)
        } else if str_eq(arg, "samus") {
            Ok(Character::Samus)
        } else if str_eq(arg, "yoshi") {
            Ok(Character::Yoshi)
        } else if str_eq(arg, "zelda") {
            Ok(Character::Zelda)
        } else if str_eq(arg, "sheik") {
            Ok(Character::Sheik)
        } else if str_eq(arg, "falco") {
            Ok(Character::Falco)
        } else if str_eq(arg, "young link") || str_eq(arg, "yl") {
            Ok(Character::YoungLink)
        } else if str_eq(arg, "dr. mario") || str_eq(arg, "dr mario") || str_eq(arg, "doc") {
            Ok(Character::DrMario)
        } else if str_eq(arg, "roy") {
            Ok(Character::Roy)
        } else if str_eq(arg, "pichu") {
            Ok(Character::Pichu)
        } else if str_eq(arg, "ganondorf") || str_eq(arg, "ganon") {
            Ok(Character::Ganondorf)
        } else {
            Err(ParsableEnumError::FromStrError)
        }
    }
}

/// A character's id is in the domain and converts back to it.
pub proof fn lemma_char_id_roundtrip(c: Character)
    ensures
        valid_char_id(c.spec_id()),
        Character::spec_of_id(c.spec_id()) == c,
{
}

impl GameDataCondition for Character {
    open spec fn spec_condition(&self, game: GameDataV) -> bool {
        game.player_char == *self
    }

    fn game_data_condition(&self, game: &GameData) -> (r: bool) {
        game.player_char == *self
    }
}

/// Canonical display name of the character with the given id.
pub fn num_to_char(char_num: usize) -> (r: String)
    requires
        valid_char_id(char_num as int),
    ensures
        r@ == Character::spec_of_id(char_num as int).spec_name(),
{
    let c = Character::of_id(char_num);
    c.display_name()
}

} // verus!
