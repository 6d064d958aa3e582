use roster_browser::players::{
    parse_catches, parse_injury, parse_position, parse_status, parse_team, Catches, Injury,
    Position, Status, Team,
};

#[test]
fn position_codes_parse_to_their_variants() {
    assert_eq!(parse_position("C"), Some(Position::Center));
    assert_eq!(parse_position("D"), Some(Position::Defense));
    assert_eq!(parse_position("G"), Some(Position::Goalie));
    assert_eq!(parse_position("LW"), Some(Position::LeftWing));
    assert_eq!(parse_position("RW"), Some(Position::RightWing));
}

#[test]
fn unknown_position_codes_are_rejected() {
    assert_eq!(parse_position(""), None);
    assert_eq!(parse_position("c"), None);
    assert_eq!(parse_position("W"), None);
    assert_eq!(parse_position("LWW"), None);
}

#[test]
fn status_codes_parse_to_their_variants() {
    assert_eq!(parse_status("Active"), Some(Status::Active));
    assert_eq!(parse_status("Minors"), Some(Status::Minors));
    assert_eq!(parse_status("Inactive"), Some(Status::Inactive));
    assert_eq!(parse_status("active"), None);
    assert_eq!(parse_status(""), None);
}

#[test]
fn handedness_codes_parse_to_their_variants() {
    assert_eq!(parse_catches("-"), Some(Catches::Empty));
    assert_eq!(parse_catches("L"), Some(Catches::Left));
    assert_eq!(parse_catches("R"), Some(Catches::Right));
    assert_eq!(parse_catches("B"), None);
}

#[test]
fn team_and_injury_codes_parse() {
    assert_eq!(parse_team("DAL"), Some(Team::Dal));
    assert_eq!(parse_team("BOS"), None);
    assert_eq!(parse_injury("Scrambled"), Some(Injury::Scrambled));
    assert_eq!(parse_injury("Healthy"), None);
}

#[test]
fn position_names_match_the_display_strings() {
    assert_eq!(Position::Center.name(), "Center");
    assert_eq!(Position::Defense.name(), "Defense");
    assert_eq!(Position::Goalie.name(), "Goalie");
    assert_eq!(Position::LeftWing.name(), "LeftWing");
    assert_eq!(Position::RightWing.name(), "RightWing");
}
