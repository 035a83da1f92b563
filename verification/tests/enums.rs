//! Tests of the closed character and stage domains: id conversions, name
//! parsing with aliases, and canonical display names.

use slp_stats::character::{num_to_char, Character};
use slp_stats::parsable_enum::{Numbered, Parsable, ParsableEnumError};
use slp_stats::stage::{num_to_stage, Stage};

#[test]
fn char_parse_from_usize() {
    let char_from_usize = Character::try_from(0).unwrap();
    assert_eq!(Character::CaptainFalcon, char_from_usize);
}

#[test]
fn char_parse_from_str() {
    let char_from_str = Character::from_str("captain falcon").unwrap();
    assert_eq!(Character::CaptainFalcon, char_from_str);
}

#[test]
fn stage_parse_from_usize() {
    let stage_from_usize = Stage::try_from(2).unwrap();
    assert_eq!(Stage::FountainOfDreams, stage_from_usize);
}

#[test]
fn stage_parse_from_usize_nonexistent_stage() {
    let stage_from_usize = Stage::try_from(0);
    assert!(stage_from_usize.is_err());
}

#[test]
fn char_parse_aliases() {
    assert_eq!(Character::CaptainFalcon, Character::from_str("falcon").unwrap());
    assert_eq!(Character::MrGameAndWatch, Character::from_str("gnw").unwrap());
    assert_eq!(Character::MrGameAndWatch, Character::from_str("game and watch").unwrap());
    assert_eq!(Character::IceClimbers, Character::from_str("ics").unwrap());
    assert_eq!(Character::Jigglypuff, Character::from_str("puff").unwrap());
    assert_eq!(Character::DrMario, Character::from_str("doc").unwrap());
    assert_eq!(Character::Ganondorf, Character::from_str("ganon").unwrap());
}

#[test]
fn char_parse_unknown_name() {
    assert_eq!(
        Character::from_str("someone else").unwrap_err(),
        ParsableEnumError::FromStrError
    );
}

#[test]
fn char_parse_is_case_sensitive_lowercase() {
    // Callers normalize input first; the raw parser only knows the
    // lowercased names.
    assert!(Character::from_str("Captain Falcon").is_err());
}

#[test]
fn char_id_out_of_domain() {
    assert_eq!(
        Character::try_from(26).unwrap_err(),
        ParsableEnumError::TryFromError
    );
}

#[test]
fn char_id_roundtrip_all() {
    for id in 0..26usize {
        let c = Character::try_from(id).unwrap();
        assert_eq!(c.id(), id);
    }
}

#[test]
fn char_display_names() {
    assert_eq!(num_to_char(0), "Captain Falcon");
    assert_eq!(num_to_char(2), "Fox");
    assert_eq!(num_to_char(3), "Mr. Game and Watch");
    assert_eq!(num_to_char(25), "Ganondorf");
    assert_eq!(Character::Marth.display_name(), "Marth");
}

#[test]
fn stage_parse_aliases() {
    assert_eq!(Stage::FountainOfDreams, Stage::from_str("fod").unwrap());
    assert_eq!(Stage::PokemonStadium, Stage::from_str("stadium").unwrap());
    assert_eq!(Stage::PokemonStadium, Stage::from_str("pokemon stadium").unwrap());
    assert_eq!(Stage::YoshisStory, Stage::from_str("ys").unwrap());
    assert_eq!(Stage::DreamLandN64, Stage::from_str("dreamland").unwrap());
    assert_eq!(Stage::Battlefield, Stage::from_str("bf").unwrap());
    assert_eq!(Stage::FinalDestination, Stage::from_str("fd").unwrap());
}

#[test]
fn stage_reserved_ids_rejected() {
    assert!(Stage::try_from(0).is_err());
    assert!(Stage::try_from(1).is_err());
    assert!(Stage::try_from(21).is_err());
    assert!(Stage::try_from(26).is_err());
    assert!(Stage::try_from(33).is_err());
}

#[test]
fn stage_id_roundtrip_all() {
    for id in 2..33usize {
        if id == 21 || id == 26 {
            continue;
        }
        let s = Stage::try_from(id).unwrap();
        assert_eq!(s.id(), id);
    }
}

#[test]
fn stage_display_names() {
    assert_eq!(num_to_stage(2), "Fountain of Dreams");
    assert_eq!(num_to_stage(3), "Pokémon Stadium");
    assert_eq!(num_to_stage(31), "Battlefield");
    assert_eq!(num_to_stage(32), "Final Destination");
}

#[test]
fn domain_sizes() {
    assert_eq!(Character::num_values(), 26);
    assert_eq!(Stage::num_values(), 33);
}
