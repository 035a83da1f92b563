//! Tests of input normalization and identity-code parsing.

use slp_stats::input::{format_help_txt, format_input, NetplayCode, NetplayCodeParseError};

#[test]
fn format_input_trims_and_lowercases() {
    assert_eq!(format_input("  FoX  \n".to_string()), "fox");
    assert_eq!(format_input("Captain Falcon".to_string()), "captain falcon");
    assert_eq!(format_input("help".to_string()), "help");
}

#[test]
fn help_text_joins_commands_with_and() {
    let cmds = vec!["run, ".to_string(), "pause, ".to_string(), "end, ".to_string()];
    assert_eq!(
        format_help_txt(cmds),
        "The available commands are run, pause, and end, "
    );
}

#[test]
fn help_text_single_command() {
    let cmds = vec!["end".to_string()];
    assert_eq!(format_help_txt(cmds), "The available commands are and end");
}

#[test]
fn help_text_no_commands() {
    assert_eq!(format_help_txt(Vec::new()), "The available commands are ");
}

#[test]
fn netplay_code_parses_name_and_number() {
    let c = NetplayCode::from_str("flos#497").unwrap();
    assert_eq!(c.name, "FLOS");
    assert_eq!(c.num, 497);
}

#[test]
fn netplay_code_number_stops_at_second_hash() {
    let c = NetplayCode::from_str("ab#12#45").unwrap();
    assert_eq!(c.name, "AB");
    assert_eq!(c.num, 12);
}

#[test]
fn netplay_code_rejects_bad_shapes() {
    // No separator.
    assert_eq!(
        NetplayCode::from_str("abcdefgh").unwrap_err(),
        NetplayCodeParseError::InvalidCode
    );
    // Wrong length.
    assert!(NetplayCode::from_str("flos#4979").is_err());
    assert!(NetplayCode::from_str("fl#49").is_err());
    // No number after the separator.
    assert!(NetplayCode::from_str("abcdefg#").is_err());
    // Number part is not decimal.
    assert!(NetplayCode::from_str("flos#a97").is_err());
}
