use roster_browser::json::players_from_json;
use roster_browser::players::{Catches, Injury, Position, Status, Team};
use roster_browser::schema::SchemaError;

fn player_object(
    id: i64,
    first: &str,
    last: &str,
    position: &str,
    status: &str,
    jersey: &str,
    shoots: &str,
) -> String {
    format!(
        "{{\"PlayerID\": {}, \"FirstName\": \"{}\", \"LastName\": \"{}\", \"Status\": \"{}\", \"Team\": \"DAL\", \"Position\": \"{}\", \"Jersey\": {}, \"Catches\": null, \"Shoots\": {}, \"Height\": 74, \"Weight\": 205, \"BirthDate\": \"1989-07-18\", \"BirthCity\": \"Victoria\", \"BirthState\": \"BC\", \"InjuryStatus\": \"Scrambled\", \"PhotoUrl\": \"ignored\"}}",
        id, first, last, status, position, jersey, shoots
    )
}

#[test]
fn a_well_formed_array_of_k_players_yields_k_players_with_exact_fields() {
    let text = format!(
        "[{}, {}, {}]",
        player_object(14, "Jamie", "Benn", "LW", "Active", "14", "\"L\""),
        player_object(91, "Tyler", "Seguin", "C", "Active", "null", "\"R\""),
        player_object(29, "Jake", "Oettinger", "G", "Minors", "29", "\"-\""),
    );
    let players = players_from_json(&text).expect("well-formed sample should deserialize");
    assert_eq!(players.len(), 3);

    let p = &players[0];
    assert_eq!(p.player_id, 14);
    assert_eq!(p.first_name, "Jamie");
    assert_eq!(p.last_name, "Benn");
    assert_eq!(p.position, Position::LeftWing);
    assert_eq!(p.status, Status::Active);
    assert_eq!(p.team, Team::Dal);
    assert_eq!(p.jersey, Some(14));
    assert_eq!(p.catches, None);
    assert_eq!(p.shoots, Some(Catches::Left));
    assert_eq!(p.height, 74);
    assert_eq!(p.weight, 205);
    assert_eq!(p.birth_date, "1989-07-18");
    assert_eq!(p.birth_city, "Victoria");
    assert_eq!(p.injury_status, Injury::Scrambled);

    assert_eq!(players[1].position, Position::Center);
    assert_eq!(players[1].jersey, None);
    assert_eq!(players[2].position, Position::Goalie);
    assert_eq!(players[2].status, Status::Minors);
    assert_eq!(players[2].shoots, Some(Catches::Empty));
}

#[test]
fn an_empty_array_yields_no_players() {
    let players = players_from_json("[]").expect("an empty array is well-formed");
    assert_eq!(players.len(), 0);
}

#[test]
fn malformed_text_is_a_syntax_error() {
    assert_eq!(players_from_json("[{").unwrap_err(), SchemaError::Syntax);
    assert_eq!(players_from_json("").unwrap_err(), SchemaError::Syntax);
}

#[test]
fn a_non_array_document_is_rejected() {
    assert_eq!(players_from_json("{}").unwrap_err(), SchemaError::NotAnArray);
    assert_eq!(players_from_json("42").unwrap_err(), SchemaError::NotAnArray);
}

#[test]
fn a_missing_required_field_is_rejected() {
    let text = "[{\"PlayerID\": 1, \"FirstName\": \"Jamie\"}]";
    assert_eq!(players_from_json(text).unwrap_err(), SchemaError::MissingField);
}

#[test]
fn a_mistyped_field_is_rejected() {
    let object = player_object(14, "Jamie", "Benn", "LW", "Active", "14", "\"L\"");
    let text = format!("[{}]", object.replace("\"Height\": 74", "\"Height\": \"tall\""));
    assert_eq!(players_from_json(&text).unwrap_err(), SchemaError::WrongType);
}

#[test]
fn an_unknown_code_is_rejected() {
    let text = format!("[{}]", player_object(14, "Jamie", "Benn", "XX", "Active", "14", "\"L\""));
    assert_eq!(players_from_json(&text).unwrap_err(), SchemaError::UnknownCode);

    let text = format!("[{}]", player_object(14, "Jamie", "Benn", "LW", "Retired", "14", "\"L\""));
    assert_eq!(players_from_json(&text).unwrap_err(), SchemaError::UnknownCode);
}

#[test]
fn absent_optional_fields_mean_no_value() {
    let object = player_object(14, "Jamie", "Benn", "LW", "Active", "14", "\"L\"");
    let stripped = object
        .replace("\"Jersey\": 14, ", "")
        .replace("\"Catches\": null, ", "")
        .replace("\"Shoots\": \"L\", ", "");
    let text = format!("[{}]", stripped);
    let players = players_from_json(&text).expect("optional keys may be absent");
    assert_eq!(players.len(), 1);
    assert_eq!(players[0].jersey, None);
    assert_eq!(players[0].catches, None);
    assert_eq!(players[0].shoots, None);
}

#[test]
fn a_mistyped_optional_field_is_rejected() {
    let object = player_object(14, "Jamie", "Benn", "LW", "Active", "true", "\"L\"");
    let text = format!("[{}]", object);
    assert_eq!(players_from_json(&text).unwrap_err(), SchemaError::WrongType);
}

#[test]
fn the_first_offending_object_rejects_the_whole_document() {
    let good = player_object(14, "Jamie", "Benn", "LW", "Active", "14", "\"L\"");
    let bad = player_object(91, "Tyler", "Seguin", "C", "Retired", "null", "\"R\"");
    let text = format!("[{}, {}]", good, bad);
    assert_eq!(players_from_json(&text).unwrap_err(), SchemaError::UnknownCode);
}
