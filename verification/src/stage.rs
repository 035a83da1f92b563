//! The closed stage domain: 29 values with sparse ids in 2..=32, canonical
//! display names, and recognized input aliases. Ids 0, 1, 21 and 26 are
//! reserved and never denote a stage.

use vstd::prelude::*;

use crate::gamedata::{GameData, GameDataV};
use crate::parsable_enum::{GameDataCondition, Numbered, Parsable, ParsableEnumError};
use crate::strutil::str_eq;

verus! {

/// A stage a match can be played on.
#[derive(Clone, Copy, Debug, PartialEq, Eq, Structural)]
pub enum Stage {
    FountainOfDreams,
    PokemonStadium,
    PrincessPeachsCastle,
    KongoJungle,
    Brinstar,
    Corneria,
    YoshisStory,
    Onett,
    MuteCity,
    RainbowCruise,
    JungleJapes,
    GreatBay,
    HyruleTemple,
    BrinstarDepths,
    YoshisIsland,
    GreenGreens,
    Fourside,
    MushroomKingdomI,
    MushroomKingdomII,
    Venom,
    PokeFloats,
    BigBlue,
    IcicleMountain,
    FlatZone,
    DreamLandN64,
    YoshisIslandN64,
    KongoJungleN64,
    Battlefield,
    FinalDestination,
}

/// An id inside the stage domain.
pub open spec fn valid_stage_id(id: int) -> bool {
    2 <= id <= 32 && id != 21 && id != 26
}

impl Stage {
    /// Numeric id of this stage.
    pub open spec fn spec_id(self) -> int {
        match self {
            Stage::FountainOfDreams => 2,
            Stage::PokemonStadium => 3,
            Stage::PrincessPeachsCastle => 4,
            Stage::KongoJungle => 5,
            Stage::Brinstar => 6,
            Stage::Corneria => 7,
            Stage::YoshisStory => 8,
            Stage::Onett => 9,
            Stage::MuteCity => 10,
            Stage::RainbowCruise => 11,
            Stage::JungleJapes => 12,
            Stage::GreatBay => 13,
            Stage::HyruleTemple => 14,
            Stage::BrinstarDepths => 15,
            Stage::YoshisIsland => 16,
            Stage::GreenGreens => 17,
            Stage::Fourside => 18,
            Stage::MushroomKingdomI => 19,
            Stage::MushroomKingdomII => 20,
            Stage::Venom => 22,
            Stage::PokeFloats => 23,
            Stage::BigBlue => 24,
            Stage::IcicleMountain => 25,
            Stage::FlatZone => 27,
            Stage::DreamLandN64 => 28,
            Stage::YoshisIslandN64 => 29,
            Stage::KongoJungleN64 => 30,
            Stage::Battlefield => 31,
            Stage::FinalDestination => 32,
        }
    }

    /// The stage of a valid id; the lowest-id stage otherwise.
    pub open spec fn spec_of_id(id: int) -> Stage {
        if id == 3 { Stage::PokemonStadium }
        else if id == 4 { Stage::PrincessPeachsCastle }
        else if id == 5 { Stage::KongoJungle }
        else if id == 6 { Stage::Brinstar }
        else if id == 7 { Stage::Corneria }
        else if id == 8 { Stage::YoshisStory }
        else if id == 9 { Stage::Onett }
        else if id == 10 { Stage::MuteCity }
        else if id == 11 { Stage::RainbowCruise }
        else if id == 12 { Stage::JungleJapes }
        else if id == 13 { Stage::GreatBay }
        else if id == 14 { Stage::HyruleTemple }
        else if id == 15 { Stage::BrinstarDepths }
        else if id == 16 { Stage::YoshisIsland }
        else if id == 17 { Stage::GreenGreens }
        else if id == 18 { Stage::Fourside }
        else if id == 19 { Stage::MushroomKingdomI }
        else if id == 20 { Stage::MushroomKingdomII }
        else if id == 22 { Stage::Venom }
        else if id == 23 { Stage::PokeFloats }
        else if id == 24 { Stage::BigBlue }
        else if id == 25 { Stage::IcicleMountain }
        else if id == 27 { Stage::FlatZone }
        else if id == 28 { Stage::DreamLandN64 }
        else if id == 29 { Stage::YoshisIslandN64 }
        else if id == 30 { Stage::KongoJungleN64 }
        else if id == 31 { Stage::Battlefield }
        else if id == 32 { Stage::FinalDestination }
        else { Stage::FountainOfDreams }
    }

    /// Numeric id of this stage.
    pub fn id(&self) -> (r: usize)
        ensures
            r as int == self.spec_id(),
            valid_stage_id(r as int),
    {
        match self {
            Stage::FountainOfDreams => 2,
            Stage::PokemonStadium => 3,
            Stage::PrincessPeachsCastle => 4,
            Stage::KongoJungle => 5,
            Stage::Brinstar => 6,
            Stage::Corneria => 7,
            Stage::YoshisStory => 8,
            Stage::Onett => 9,
            Stage::MuteCity => 10,
            Stage::RainbowCruise => 11,
            Stage::JungleJapes => 12,
            Stage::GreatBay => 13,
            Stage::HyruleTemple => 14,
            Stage::BrinstarDepths => 15,
            Stage::YoshisIsland => 16,
            Stage::GreenGreens => 17,
            Stage::Fourside => 18,
            Stage::MushroomKingdomI => 19,
            Stage::MushroomKingdomII => 20,
            Stage::Venom => 22,
            Stage::PokeFloats => 23,
            Stage::BigBlue => 24,
            Stage::IcicleMountain => 25,
            Stage::FlatZone => 27,
            Stage::DreamLandN64 => 28,
            Stage::YoshisIslandN64 => 29,
            Stage::KongoJungleN64 => 30,
            Stage::Battlefield => 31,
            Stage::FinalDestination => 32,
        }
    }

    /// Executable twin of [`Stage::spec_of_id`] for valid ids.
    pub fn of_id(id: usize) -> (r: Stage)
        requires
            valid_stage_id(id as int),
        ensures
            r == Stage::spec_of_id(id as int),
    {
        match id {
            2 => Stage::FountainOfDreams,
            3 => Stage::PokemonStadium,
            4 => Stage::PrincessPeachsCastle,
            5 => Stage::KongoJungle,
            6 => Stage::Brinstar,
            7 => Stage::Corneria,
            8 => Stage::YoshisStory,
            9 => Stage::Onett,
            10 => Stage::MuteCity,
            11 => Stage::RainbowCruise,
            12 => Stage::JungleJapes,
            13 => Stage::GreatBay,
            14 => Stage::HyruleTemple,
            15 => Stage::BrinstarDepths,
            16 => Stage::YoshisIsland,
            17 => Stage::GreenGreens,
            18 => Stage::Fourside,
            19 => Stage::MushroomKingdomI,
            20 => Stage::MushroomKingdomII,
            22 => Stage::Venom,
            23 => Stage::PokeFloats,
            24 => Stage::BigBlue,
            25 => Stage::IcicleMountain,
            27 => Stage::FlatZone,
            28 => Stage::DreamLandN64,
            29 => Stage::YoshisIslandN64,
            30 => Stage::KongoJungleN64,
            31 => Stage::Battlefield,
            _ => Stage::FinalDestination,
        }
    }

    /// The stage a lowercased display name or a recognized alias denotes,
    /// if any.
    pub open spec fn spec_from_name(s: Seq<char>) -> Option<Stage> {
        if s == "fountain of dreams"@ || s == "fountain"@ || s == "fod"@ {
            Some(Stage::FountainOfDreams)
        }
        else if s == "pokémon stadium"@ || s == "pokemon stadium"@ || s == "pokemon"@ || s
            == "stadium"@ { Some(Stage::PokemonStadium) }
        else if s == "yoshi's story"@ || s == "yoshi's"@ || s == "ys"@ {
            Some(Stage::YoshisStory)
        }
        else if s == "dream land n64"@ || s == "dream land"@ || s == "dreamland"@ || s == "dl"@ {
            Some(Stage::DreamLandN64)
        }
        else if s == "battlefield"@ || s == "bf"@ { Some(Stage::Battlefield) }
        else if s == "final destination"@ || s == "fd"@ { Some(Stage::FinalDestination) }
        else if s == "princess peach's castle"@ || s == "peach's castle"@ || s == "ppc"@ {
            Some(Stage::PrincessPeachsCastle)
        }
        else if s == "kongo jungle"@ || s == "kj"@ { Some(Stage::KongoJungle) }
        else if s == "brinstar"@ { Some(Stage::Brinstar) }
        else if s == "corneria"@ { Some(Stage::Corneria) }
        else if s == "onett"@ { Some(Stage::Onett) }
        else if s == "mute city"@ || s == "mc"@ { Some(Stage::MuteCity) }
        else if s == "rainbow cruise"@ || s == "rc"@ { Some(Stage::RainbowCruise) }
        else if s == "jungle japes"@ || s == "jj"@ { Some(Stage::JungleJapes) }
        else if s == "great bay"@ || s == "gb"@ { Some(Stage::GreatBay) }
        else if s == "hyrule temple"@ || s == "temple"@ || s == "ht"@ {
            Some(Stage::HyruleTemple)
        }
        else if s == "brinstar depths"@ || s == "bd"@ { Some(Stage::BrinstarDepths) }
        else if s == "yoshi's island"@ || s == "yi"@ { Some(Stage::YoshisIsland) }
        else if s == "green greens"@ || s == "gg"@ { Some(Stage::GreenGreens) }
        else if s == "fourside"@ { Some(Stage::Fourside) }
        else if s == "mushroom kingdom i"@ || s == "mushroom kingdom 1"@ || s == "mk1"@ {
            Some(Stage::MushroomKingdomI)
        }
        else if s == "mushroom kingdom ii"@ || s == "mushroom kingdom 2"@ || s == "mk2"@ {
            Some(Stage::MushroomKingdomII)
        }
        else if s == "venom"@ { Some(Stage::Venom) }
        else if s == "poké floats"@ || s == "poke floats"@ || s == "pf"@ {
            Some(Stage::PokeFloats)
        }
        else if s == "big blue"@ || s == "bb"@ { Some(Stage::BigBlue) }
        else if s == "icicle mountain"@ || s == "im"@ { Some(Stage::IcicleMountain) }
        else if s == "flat zone"@ || s == "fz"@ { Some(Stage::FlatZone) }
        else if s == "yoshi's island n64"@ || s == "yoshi's island 64"@ || s == "yi64"@ {
            Some(Stage::YoshisIslandN64)
        }
        else if s == "kongo jungle n64"@ || s == "kongo jungle 64"@ || s == "kj64"@ {
            Some(Stage::KongoJungleN64)
        }
        else { None }
    }

    /// Parses a lowercased display name or alias.
    pub fn from_str(arg: &str) -> (r: Result<Stage, ParsableEnumError>)
        ensures
            match r {
                Ok(s) => Stage::spec_from_name(arg@) == Some(s),
                Err(e) => Stage::spec_from_name(arg@) is None && e
                    == ParsableEnumError::FromStrError,
            },
    {
        if str_eq(arg, "fountain of dreams") || str_eq(arg, "fountain") || str_eq(arg, "fod") {
            Ok(Stage::FountainOfDreams)
        } else if str_eq(arg, "pokémon stadium") || str_eq(arg, "pokemon stadium") || str_eq(
            arg,
            "pokemon",
        ) || str_eq(arg, "stadium") {
            Ok(Stage::PokemonStadium)
        } else if str_eq(arg, "yoshi's story") || str_eq(arg, "yoshi's") || str_eq(arg, "ys") {
            Ok(Stage::YoshisStory)
        } else if str_eq(arg, "dream land n64") || str_eq(arg, "dream land") || str_eq(
            arg,
            "dreamland",
        ) || str_eq(arg, "dl") {
            Ok(Stage::DreamLandN64)
        } else if str_eq(arg, "battlefield") || str_eq(arg, "bf") {
            Ok(Stage::Battlefield)
        } else if str_eq(arg, "final destination") || str_eq(arg, "fd") {
            Ok(Stage::FinalDestination)
        } else if str_eq(arg, "princess peach's castle") || str_eq(arg, "peach's castle")
            || str_eq(arg, "ppc") {
            Ok(Stage::PrincessPeachsCastle)
        } else if str_eq(arg, "kongo jungle") || str_eq(arg, "kj") {
            Ok(Stage::KongoJungle)
        } else if str_eq(arg, "brinstar") {
            Ok(Stage::Brinstar)
        } else if str_eq(arg, "corneria") {
            Ok(Stage::Corneria)
        } else if str_eq(arg, "onett") {
            Ok(Stage::Onett)
        } else if str_eq(arg, "mute city") || str_eq(arg, "mc") {
            Ok(Stage::MuteCity)
        } else if str_eq(arg, "rainbow cruise") || str_eq(arg, "rc") {
            Ok(Stage::RainbowCruise)
        } else if str_eq(arg, "jungle japes") || str_eq(arg, "jj") {
            Ok(Stage::JungleJapes)
        } else if str_eq(arg, "great bay") || str_eq(arg, "gb") {
            Ok(Stage::GreatBay)
        } else if str_eq(arg, "hyrule temple") || str_eq(arg, "temple") || str_eq(arg, "ht") {
            Ok(Stage::HyruleTemple)
        } else if str_eq(arg, "brinstar depths") || str_eq(arg, "bd") {
            Ok(Stage::BrinstarDepths)
        } else if str_eq(arg, "yoshi's island") || str_eq(arg, "yi") {
            Ok(Stage::YoshisIsland)
        } else if str_eq(arg, "green greens") || str_eq(arg, "gg") {
            Ok(Stage::GreenGreens)
        } else if str_eq(arg, "fourside") {
            Ok(Stage::Fourside)
        } else if str_eq(arg, "mushroom kingdom i") || str_eq(arg, "mushroom kingdom 1")
            || str_eq(arg, "mk1") {
            Ok(Stage::MushroomKingdomI)
        } else if str_eq(arg, "mushroom kingdom ii") || str_eq(arg, "mushroom kingdom 2")
            || str_eq(arg, "mk2") {
            Ok(Stage::MushroomKingdomII)
        } else if str_eq(arg, "venom") {
            Ok(Stage::Venom)
        } else if str_eq(arg, "poké floats") || str_eq(arg, "poke floats") || str_eq(arg, "pf") {
            Ok(Stage::PokeFloats)
        } else if str_eq(arg, "big blue") || str_eq(arg, "bb") {
            Ok(Stage::BigBlue)
        } else if str_eq(arg, "icicle mountain") || str_eq(arg, "im") {
            Ok(Stage::IcicleMountain)
        } else if str_eq(arg, "flat zone") || str_eq(arg, "fz") {
            Ok(Stage::FlatZone)
        } else if str_eq(arg, "yoshi's island n64") || str_eq(arg, "yoshi's island 64")
            || str_eq(arg, "yi64") {
            Ok(Stage::YoshisIslandN64)
        } else if str_eq(arg, "kongo jungle n64") || str_eq(arg, "kongo jungle 64") || str_eq(
            arg,
            "kj64",
        ) {
            Ok(Stage::KongoJungleN64)
        } else {
            Err(ParsableEnumError::FromStrError)
        }
    }
}

impl Numbered for Stage {
    open spec fn spec_num_values() -> usize {
        33
    }

    fn num_values() -> (n: usize) {
        33
    }
}

impl Parsable for Stage {
    open spec fn spec_from_id(id: int) -> Option<Stage> {
        if valid_stage_id(id) {
            Some(Stage::spec_of_id(id))
        } else {
            None
        }
    }

    open spec fn spec_name(self) -> Seq<char> {
        match self {
            Stage::FountainOfDreams => "Fountain of Dreams"@,
            Stage::PokemonStadium => "Pokémon Stadium"@,
            Stage::PrincessPeachsCastle => "Princess Peach's Castle"@,
            Stage::KongoJungle => "Kongo Jungle"@,
            Stage::Brinstar => "Brinstar"@,
            Stage::Corneria => "Corneria"@,
            Stage::YoshisStory => "Yoshi's Story"@,
            Stage::Onett => "Onett"@,
            Stage::MuteCity => "Mute City"@,
            Stage::RainbowCruise => "Rainbow Cruise"@,
            Stage::JungleJapes => "Jungle Japes"@,
            Stage::GreatBay => "Great Bay"@,
            Stage::HyruleTemple => "Hyrule Temple"@,
            Stage::BrinstarDepths => "Brinstar Depths"@,
            Stage::YoshisIsland => "Yoshi's Island"@,
            Stage::GreenGreens => "Green Greens"@,
            Stage::Fourside => "Fourside"@,
            Stage::MushroomKingdomI => "Mushroom Kingdom I"@,
            Stage::MushroomKingdomII => "Mushroom Kingdom II"@,
            Stage::Venom => "Venom"@,
            Stage::PokeFloats => "Poké Floats"@,
            Stage::BigBlue => "Big Blue"@,
            Stage::IcicleMountain => "Icicle Mountain"@,
            Stage::FlatZone => "Flat Zone"@,
            Stage::DreamLandN64 => "Dream Land N64"@,
            Stage::YoshisIslandN64 => "Yoshi's Island N64"@,
            Stage::KongoJungleN64 => "Kongo Jungle N64"@,
            Stage::Battlefield => "Battlefield"@,
            Stage::FinalDestination => "Final Destination"@,
        }
    }

    fn display_name(&self) -> (r: String) {
        match self {
            Stage::FountainOfDreams => "Fountain of Dreams".to_owned(),
            Stage::PokemonStadium => "Pokémon Stadium".to_owned(),
            Stage::PrincessPeachsCastle => "Princess Peach's Castle".to_owned(),
            Stage::KongoJungle => "Kongo Jungle".to_owned(),
            Stage::Brinstar => "Brinstar".to_owned(),
            Stage::Corneria => "Corneria".to_owned(),
            Stage::YoshisStory => "Yoshi's Story".to_owned(),
            Stage::Onett => "Onett".to_owned(),
            Stage::MuteCity => "Mute City".to_owned(),
            Stage::RainbowCruise => "Rainbow Cruise".to_owned(),
            Stage::JungleJapes => "Jungle Japes".to_owned(),
            Stage::GreatBay => "Great Bay".to_owned(),
            Stage::HyruleTemple => "Hyrule Temple".to_owned(),
            Stage::BrinstarDepths => "Brinstar Depths".to_owned(),
            Stage::YoshisIsland => "Yoshi's Island".to_owned(),
            Stage::GreenGreens => "Green Greens".to_owned(),
            Stage::Fourside => "Fourside".to_owned(),
            Stage::MushroomKingdomI => "Mushroom Kingdom I".to_owned(),
            Stage::MushroomKingdomII => "Mushroom Kingdom II".to_owned(),
            Stage::Venom => "Venom".to_owned(),
            Stage::PokeFloats => "Poké Floats".to_owned(),
            Stage::BigBlue => "Big Blue".to_owned(),
            Stage::IcicleMountain => "Icicle Mountain".to_owned(),
            Stage::FlatZone => "Flat Zone".to_owned(),
            Stage::DreamLandN64 => "Dream Land N64".to_owned(),
            Stage::YoshisIslandN64 => "Yoshi's Island N64".to_owned(),
            Stage::KongoJungleN64 => "Kongo Jungle N64".to_owned(),
            Stage::Battlefield => "Battlefield".to_owned(),
            Stage::FinalDestination => "Final Destination".to_owned(),
        }
    }
}

impl core::convert::TryFrom<usize> for Stage {
    type Error = ParsableEnumError;

    fn try_from(num: usize) -> (r: Result<Stage, ParsableEnumError>) {
        if num >= 2 && num <= 32 && num != 21 && num != 26 {
            Ok(Stage::of_id(num))
        } else {
            Err(ParsableEnumError::TryFromError)
        }
    }
}

impl vstd::std_specs::convert::TryFromSpecImpl<usize> for Stage {
    open spec fn obeys_try_from_spec() -> bool {
        true
    }

    open spec fn try_from_spec(v: usize) -> Result<Stage, ParsableEnumError> {
        match Stage::spec_from_id(v as int) {
            Some(s) => Ok(s),
            None => Err(ParsableEnumError::TryFromError),
        }
    }
}

/// A stage's id is in the domain and converts back to it.
pub proof fn lemma_stage_id_roundtrip(s: Stage)
    ensures
        valid_stage_id(s.spec_id()),
        Stage::spec_of_id(s.spec_id()) == s,
{
}

impl GameDataCondition for Stage {
    open spec fn spec_condition(&self, game: GameDataV) -> bool {
        game.stage == *self
    }

    fn game_data_condition(&self, game: &GameData) -> (r: bool) {
        game.stage == *self
    }
}

/// Canonical display name of the stage with the given id.
pub fn num_to_stage(stage_num: usize) -> (r: String)
    requires
        valid_stage_id(stage_num as int),
    ensures
        r@ == Stage::spec_of_id(stage_num as int).spec_name(),
{
    let s = Stage::of_id(stage_num);
    s.display_name()
}

} // verus!
