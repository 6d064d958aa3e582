use roster_browser::fetch::players_endpoint_url;
use roster_browser::players::{filter_active, Catches, Injury, Player, Position, Status, Team};
use roster_browser::render::{player_details, player_list_rows, render_frame, row_text};
use roster_browser::state::AppState;
use roster_browser::text::{i64_dec_string, u64_dec_string};

fn player(first: &str, last: &str, position: Position, status: Status, jersey: Option<i64>) -> Player {
    Player {
        player_id: 14,
        first_name: first.to_string(),
        last_name: last.to_string(),
        status,
        team: Team::Dal,
        position,
        jersey,
        catches: None,
        shoots: Some(Catches::Left),
        height: 74,
        weight: 205,
        birth_date: "1989-07-18".to_string(),
        birth_city: "Victoria".to_string(),
        injury_status: Injury::Scrambled,
    }
}

#[test]
fn a_list_row_shows_last_name_first_name_and_position() {
    let p = player("Jamie", "Benn", Position::LeftWing, Status::Active, Some(14));
    assert_eq!(row_text(&p), "Benn, Jamie, - LeftWing");
}

#[test]
fn the_list_pane_has_one_row_per_player_in_roster_order() {
    let roster = vec![
        player("Jamie", "Benn", Position::LeftWing, Status::Active, Some(14)),
        player("Tyler", "Seguin", Position::Center, Status::Active, Some(91)),
    ];
    let rows = player_list_rows(&roster);
    assert_eq!(rows.len(), 2);
    assert_eq!(rows[0], "Benn, Jamie, - LeftWing");
    assert_eq!(rows[1], "Seguin, Tyler, - Center");
}

#[test]
fn the_detail_pane_shows_title_jersey_and_birth_info() {
    let p = player("Jamie", "Benn", Position::LeftWing, Status::Active, Some(14));
    let d = player_details(&p);
    assert_eq!(d.title, "Jamie Benn");
    assert_eq!(d.jersey_line, "14");
    assert_eq!(d.birth_line, "1989-07-18 - Victoria");
}

#[test]
fn a_missing_jersey_renders_as_an_empty_line() {
    let p = player("Jamie", "Benn", Position::LeftWing, Status::Active, None);
    let d = player_details(&p);
    assert_eq!(d.jersey_line, "");
}

#[test]
fn an_empty_roster_renders_zero_rows_and_no_detail_pane() {
    let st = AppState::new(Vec::new());
    let f = render_frame(&st);
    assert_eq!(f.rows.len(), 0);
    assert!(f.highlighted.is_none());
    assert!(f.detail.is_none());
}

#[test]
fn the_detail_pane_appears_only_while_a_player_is_active() {
    let roster = vec![player("Jamie", "Benn", Position::LeftWing, Status::Active, Some(14))];
    let mut st = AppState::new(roster);
    st.move_down();
    let f = render_frame(&st);
    assert_eq!(f.highlighted, Some(0));
    assert!(f.detail.is_none());

    st.select_player();
    let f = render_frame(&st);
    let d = f.detail.expect("an active player fills the detail pane");
    assert_eq!(d.title, "Jamie Benn");

    st.deselect_player();
    let f = render_frame(&st);
    assert!(f.detail.is_none());
}

#[test]
fn decimal_rendering_is_exact() {
    assert_eq!(u64_dec_string(0), "0");
    assert_eq!(u64_dec_string(7), "7");
    assert_eq!(u64_dec_string(10), "10");
    assert_eq!(u64_dec_string(305), "305");
    assert_eq!(u64_dec_string(u64::MAX), "18446744073709551615");
    assert_eq!(i64_dec_string(14), "14");
    assert_eq!(i64_dec_string(0), "0");
    assert_eq!(i64_dec_string(-8), "-8");
    assert_eq!(i64_dec_string(i64::MIN), "-9223372036854775808");
    assert_eq!(i64_dec_string(i64::MAX), "9223372036854775807");
}

#[test]
fn only_active_players_survive_the_roster_filter() {
    let roster = vec![
        player("Jamie", "Benn", Position::LeftWing, Status::Active, Some(14)),
        player("Down", "OnTheFarm", Position::Center, Status::Minors, None),
        player("Out", "ForNow", Position::Defense, Status::Inactive, None),
        player("Tyler", "Seguin", Position::Center, Status::Active, Some(91)),
    ];
    let active = filter_active(&roster);
    assert_eq!(active.len(), 2);
    assert_eq!(active[0].first_name, "Jamie");
    assert_eq!(active[1].first_name, "Tyler");
}

#[test]
fn the_endpoint_url_holds_the_team_code_and_the_key() {
    let url = players_endpoint_url("DAL", "SECRET-REDACTED");
    assert_eq!(
        url,
        "https://api.sportsdata.io/v3/nhl/scores/json/Players/DAL?key=SECRET-REDACTED"
    );
}
