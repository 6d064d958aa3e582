//! The roster data model: player records and the closed code sets
//! (position, status, handedness, team, injury note) that the upstream
//! feed encodes as short strings.

use vstd::prelude::*;
use crate::text::str_eq;

verus! {

/// Which hand a player catches or shoots with, as the feed encodes it.
#[derive(Clone, Copy, PartialEq, Eq, Structural, Debug)]
pub enum Catches {
    Empty,
    Left,
    Right,
}

/// A skater's or goalie's position.
#[derive(Clone, Copy, PartialEq, Eq, Structural, Debug)]
pub enum Position {
    Center,
    Defense,
    Goalie,
    LeftWing,
    RightWing,
}

/// The placeholder injury note the feed returns.
#[derive(Clone, Copy, PartialEq, Eq, Structural, Debug)]
pub enum Injury {
    Scrambled,
}

/// A player's roster status.
#[derive(Clone, Copy, PartialEq, Eq, Structural, Debug)]
pub enum Status {
    Active,
    Minors,
    Inactive,
}

/// The team the roster belongs to.
#[derive(Clone, Copy, PartialEq, Eq, Structural, Debug)]
pub enum Team {
    Dal,
}

/// One player record, immutable once fetched.
#[derive(Debug)]
pub struct Player {
    pub player_id: i64,
    pub first_name: String,
    pub last_name: String,
    pub status: Status,
    pub team: Team,
    pub position: Position,
    pub jersey: Option<i64>,
    pub catches: Option<Catches>,
    pub shoots: Option<Catches>,
    pub height: i64,
    pub weight: i64,
    pub birth_date: String,
    pub birth_city: String,
    pub injury_status: Injury,
}

/// A roster: the sequence of players fetched for one team.
pub type Players = Vec<Player>;

pub open spec fn spec_parse_position(s: Seq<char>) -> Option<Position> {
    if s == "C"@ {
        Some(Position::Center)
    } else if s == "D"@ {
        Some(Position::Defense)
    } else if s == "G"@ {
        Some(Position::Goalie)
    } else if s == "LW"@ {
        Some(Position::LeftWing)
    } else if s == "RW"@ {
        Some(Position::RightWing)
    } else {
        None
    }
}

/// Parses a position code from the feed; `None` exactly on unknown codes.
pub fn parse_position(s: &str) -> (r: Option<Position>)
    ensures
        r == spec_parse_position(s@),
{
    if str_eq(s, "C") {
        Some(Position::Center)
    } else if str_eq(s, "D") {
        Some(Position::Defense)
    } else if str_eq(s, "G") {
        Some(Position::Goalie)
    } else if str_eq(s, "LW") {
        Some(Position::LeftWing)
    } else if str_eq(s, "RW") {
        Some(Position::RightWing)
    } else {
        None
    }
}

pub open spec fn spec_position_name(p: Position) -> Seq<char> {
    match p {
        Position::Center => "Center"@,
        Position::Defense => "Defense"@,
        Position::Goalie => "Goalie"@,
        Position::LeftWing => "LeftWing"@,
        Position::RightWing => "RightWing"@,
    }
}

impl Position {
    /// The human-readable name shown in the list pane.
    pub fn name(&self) -> (r: String)
        ensures
            r@ == spec_position_name(*self),
    {
        match self {
            Position::Center => "Center".to_owned(),
            Position::Defense => "Defense".to_owned(),
            Position::Goalie => "Goalie".to_owned(),
            Position::LeftWing => "LeftWing".to_owned(),
            Position::RightWing => "RightWing".to_owned(),
        }
    }
}

pub open spec fn spec_parse_status(s: Seq<char>) -> Option<Status> {
    if s == "Active"@ {
        Some(Status::Active)
    } else if s == "Minors"@ {
        Some(Status::Minors)
    } else if s == "Inactive"@ {
        Some(Status::Inactive)
    } else {
        None
    }
}

/// Parses a roster status code; `None` exactly on unknown codes.
pub fn parse_status(s: &str) -> (r: Option<Status>)
    ensures
        r == spec_parse_status(s@),
{
    if str_eq(s, "Active") {
        Some(Status::Active)
    } else if str_eq(s, "Minors") {
        Some(Status::Minors)
    } else if str_eq(s, "Inactive") {
        Some(Status::Inactive)
    } else {
        None
    }
}

pub open spec fn spec_parse_catches(s: Seq<char>) -> Option<Catches> {
    if s == "-"@ {
        Some(Catches::Empty)
    } else if s == "L"@ {
        Some(Catches::Left)
    } else if s == "R"@ {
        Some(Catches::Right)
    } else {
        None
    }
}

/// Parses a handedness code; `None` exactly on unknown codes.
pub fn parse_catches(s: &str) -> (r: Option<Catches>)
    ensures
        r == spec_parse_catches(s@),
{
    if str_eq(s, "-") {
        Some(Catches::Empty)
    } else if str_eq(s, "L") {
        Some(Catches::Left)
    } else if str_eq(s, "R") {
        Some(Catches::Right)
    } else {
        None
    }
}

pub open spec fn spec_parse_team(s: Seq<char>) -> Option<Team> {
    if s == "DAL"@ {
        Some(Team::Dal)
    } else {
        None
    }
}

/// Parses a team code; `None` exactly on unknown codes.
pub fn parse_team(s: &str) -> (r: Option<Team>)
    ensures
        r == spec_parse_team(s@),
{
    if str_eq(s, "DAL") {
        Some(Team::Dal)
    } else {
        None
    }
}

pub open spec fn spec_parse_injury(s: Seq<char>) -> Option<Injury> {
    if s == "Scrambled"@ {
        Some(Injury::Scrambled)
    } else {
        None
    }
}

/// Parses an injury note; `None` exactly on unknown codes.
pub fn parse_injury(s: &str) -> (r: Option<Injury>)
    ensures
        r == spec_parse_injury(s@),
{
    if str_eq(s, "Scrambled") {
        Some(Injury::Scrambled)
    } else {
        None
    }
}

/// Membership in the active roster: the predicate `filter_active` keeps.
pub open spec fn active_pred() -> spec_fn(Player) -> bool {
    |p: Player| p.status is Active
}

/// Keep only the players whose roster status is `Active`, in order.
pub fn filter_active(players: &Vec<Player>) -> (r: Vec<Player>)
    ensures
        r@ == players@.filter(active_pred()),
{
    let mut r: Vec<Player> = Vec::new();
    let mut k: usize = 0;
    proof {
        assert(players@.subrange(0, 0).filter(active_pred()) =~= Seq::<Player>::empty());
    }
    while k < players.len()
        invariant
            k <= players@.len(),
            r@ == players@.subrange(0, k as int).filter(active_pred()),
        decreases players@.len() - k,
    {
        let keep = match players[k].status {
            Status::Active => true,
            _ => false,
        };
        if keep {
            let p = players[k].clone();
            r.push(p);
        }
        proof {
            reveal(Seq::filter);
            let s1 = players@.subrange(0, (k + 1) as int);
            assert(s1.drop_last() =~= players@.subrange(0, k as int));
            assert(s1.last() == players@[k as int]);
            assert(active_pred()(players@[k as int]) == keep);
            assert(r@ =~= s1.filter(active_pred()));
        }
        k = k + 1;
    }
    proof {
        assert(players@.subrange(0, players@.len() as int) =~= players@);
    }
    r
}

impl Clone for Player {
    /// A snapshot of a player keeps every field.
    fn clone(&self) -> (r: Self)
        ensures
            r == *self,
    {
        Player {
            player_id: self.player_id,
            first_name: self.first_name.clone(),
            last_name: self.last_name.clone(),
            status: self.status,
            team: self.team,
            position: self.position,
            jersey: self.jersey,
            catches: self.catches,
            shoots: self.shoots,
            height: self.height,
            weight: self.weight,
            birth_date: self.birth_date.clone(),
            birth_city: self.birth_city.clone(),
            injury_status: self.injury_status,
        }
    }
}

} // verus!
