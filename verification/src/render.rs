//! The pure projection of browser state into what the terminal shows:
//! one text row per player in the list pane, and a detail pane only
//! while an active-player snapshot exists. Nothing here mutates state;
//! the terminal front end only draws what this module computes.

use vstd::prelude::*;
use vstd::string::StringExecFns;
use crate::players::{Player, spec_position_name};
use crate::state::AppState;
use crate::text::{spec_i64_dec, i64_dec_string};

verus! {

/// The text of one list-pane row: "Last, First, - Position".
pub open spec fn spec_row_text(p: Player) -> Seq<char> {
    p.last_name@ + ", "@ + p.first_name@ + ", - "@ + spec_position_name(p.position)
}

/// The detail pane's title: "First Last".
pub open spec fn spec_detail_title(p: Player) -> Seq<char> {
    p.first_name@ + " "@ + p.last_name@
}

/// The jersey line: the number in decimal, or empty when unset.
pub open spec fn spec_jersey_line(p: Player) -> Seq<char> {
    match p.jersey {
        Some(j) => spec_i64_dec(j as int),
        None => Seq::<char>::empty(),
    }
}

/// The birth line: "BirthDate - BirthCity".
pub open spec fn spec_birth_line(p: Player) -> Seq<char> {
    p.birth_date@ + " - "@ + p.birth_city@
}

/// The text of one list-pane row for a player.
pub fn row_text(p: &Player) -> (r: String)
    ensures
        r@ == spec_row_text(*p),
{
    let mut s = p.last_name.clone();
    s.append(", ");
    s.append(p.first_name.as_str());
    s.append(", - ");
    let name = p.position.name();
    s.append(name.as_str());
    s
}

/// The whole list pane: one row per player, in roster order.
pub fn player_list_rows(players: &Vec<Player>) -> (rows: Vec<String>)
    ensures
        rows@.len() == players@.len(),
        forall|i: int| 0 <= i < players@.len() ==> rows@[i]@ == spec_row_text(players@[i]),
{
    let mut rows: Vec<String> = Vec::new();
    let mut k: usize = 0;
    while k < players.len()
        invariant
            k <= players@.len(),
            rows@.len() == k,
            forall|i: int| 0 <= i < k ==> rows@[i]@ == spec_row_text(players@[i]),
        decreases players@.len() - k,
    {
        let row = row_text(&players[k]);
        rows.push(row);
        k = k + 1;
    }
    rows
}

/// The detail pane's contents for one player.
pub struct DetailPane {
    pub title: String,
    pub jersey_line: String,
    pub birth_line: String,
}

/// What the detail pane shows of a player.
pub open spec fn detail_matches(d: DetailPane, p: Player) -> bool {
    &&& d.title@ == spec_detail_title(p)
    &&& d.jersey_line@ == spec_jersey_line(p)
    &&& d.birth_line@ == spec_birth_line(p)
}

/// Project one player into the detail pane.
pub fn player_details(p: &Player) -> (d: DetailPane)
    ensures
        detail_matches(d, *p),
{
    let mut title = p.first_name.clone();
    title.append(" ");
    title.append(p.last_name.as_str());

    let jersey_line = match p.jersey {
        Some(j) => i64_dec_string(j),
        None => String::new(),
    };

    let mut birth_line = p.birth_date.clone();
    birth_line.append(" - ");
    birth_line.append(p.birth_city.as_str());

    DetailPane { title, jersey_line, birth_line }
}

/// Everything one frame shows: the list rows, which row is highlighted,
/// and the detail pane when a player is active.
pub struct Frame {
    pub rows: Vec<String>,
    pub highlighted: Option<usize>,
    pub detail: Option<DetailPane>,
}

/// Render the current state into a frame. Rendering is a pure
/// projection: an empty roster gives zero rows, and the detail pane
/// exists exactly while an active-player snapshot does.
pub fn render_frame(state: &AppState) -> (f: Frame)
    ensures
        f.rows@.len() == state@.players.len(),
        forall|i: int| 0 <= i < state@.players.len() ==> f.rows@[i]@ == spec_row_text(
            state@.players[i],
        ),
        f.highlighted == state@.selected,
        f.detail is Some <==> state@.active_player is Some,
        (match state@.active_player {
            Some(p) => f.detail matches Some(d) && detail_matches(d, p),
            None => f.detail is None,
        }),
{
    let rows = player_list_rows(&state.players);
    let detail = match &state.active_player {
        Some(p) => Some(player_details(p)),
        None => None,
    };
    Frame { rows, highlighted: state.selected, detail }
}

} // verus!
