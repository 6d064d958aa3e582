//! The feed's player schema: the plain field values pulled out of one
//! JSON player object, and their checked conversion into a `Player`.
//! Everything here is exact: conversion succeeds precisely when every
//! code string belongs to its closed set.

use vstd::prelude::*;
use crate::players::{
    Player, spec_parse_position, spec_parse_status, spec_parse_catches, spec_parse_team,
    spec_parse_injury, parse_position, parse_status, parse_catches, parse_team, parse_injury,
};

verus! {

/// Why a fetched document was rejected.
#[derive(Clone, Copy, PartialEq, Eq, Structural, Debug)]
pub enum SchemaError {
    /// The text is not well-formed JSON.
    Syntax,
    /// The document is not a JSON array.
    NotAnArray,
    /// A required field is absent from a player object.
    MissingField,
    /// A field is present but holds the wrong kind of value.
    WrongType,
    /// A closed-set code string is none of the known codes.
    UnknownCode,
}

/// The plain values of one player object, before code strings are checked.
pub struct RawPlayer {
    pub player_id: i64,
    pub first_name: String,
    pub last_name: String,
    pub status: String,
    pub team: String,
    pub position: String,
    pub jersey: Option<i64>,
    pub catches: Option<String>,
    pub shoots: Option<String>,
    pub height: i64,
    pub weight: i64,
    pub birth_date: String,
    pub birth_city: String,
    pub injury_status: String,
}

/// The mathematical model of a raw record: the same fields over
/// character sequences.
#[verifier::ext_equal]
pub struct RawPlayerModel {
    pub player_id: i64,
    pub first_name: Seq<char>,
    pub last_name: Seq<char>,
    pub status: Seq<char>,
    pub team: Seq<char>,
    pub position: Seq<char>,
    pub jersey: Option<i64>,
    pub catches: Option<Seq<char>>,
    pub shoots: Option<Seq<char>>,
    pub height: i64,
    pub weight: i64,
    pub birth_date: Seq<char>,
    pub birth_city: Seq<char>,
    pub injury_status: Seq<char>,
}

impl View for RawPlayer {
    type V = RawPlayerModel;

    open spec fn view(&self) -> RawPlayerModel {
        RawPlayerModel {
            player_id: self.player_id,
            first_name: self.first_name@,
            last_name: self.last_name@,
            status: self.status@,
            team: self.team@,
            position: self.position@,
            jersey: self.jersey,
            catches: (match self.catches {
                Some(c) => Some(c@),
                None => None,
            }),
            shoots: (match self.shoots {
                Some(c) => Some(c@),
                None => None,
            }),
            height: self.height,
            weight: self.weight,
            birth_date: self.birth_date@,
            birth_city: self.birth_city@,
            injury_status: self.injury_status@,
        }
    }
}

/// Every code string of the raw record belongs to its closed set.
pub open spec fn raw_codes_valid(raw: RawPlayerModel) -> bool {
    &&& spec_parse_status(raw.status) is Some
    &&& spec_parse_team(raw.team) is Some
    &&& spec_parse_position(raw.position) is Some
    &&& spec_parse_injury(raw.injury_status) is Some
    &&& (raw.catches matches Some(c) ==> spec_parse_catches(c) is Some)
    &&& (raw.shoots matches Some(s) ==> spec_parse_catches(s) is Some)
}

/// The player carries exactly the raw record's values, with each code
/// string replaced by the variant it parses to.
pub open spec fn player_matches_raw(p: Player, raw: RawPlayerModel) -> bool {
    &&& p.player_id == raw.player_id
    &&& p.first_name@ == raw.first_name
    &&& p.last_name@ == raw.last_name
    &&& Some(p.status) == spec_parse_status(raw.status)
    &&& Some(p.team) == spec_parse_team(raw.team)
    &&& Some(p.position) == spec_parse_position(raw.position)
    &&& Some(p.injury_status) == spec_parse_injury(raw.injury_status)
    &&& p.jersey == raw.jersey
    &&& (match (p.catches, raw.catches) {
        (None, None) => true,
        (Some(c), Some(s)) => Some(c) == spec_parse_catches(s),
        _ => false,
    })
    &&& (match (p.shoots, raw.shoots) {
        (None, None) => true,
        (Some(c), Some(s)) => Some(c) == spec_parse_catches(s),
        _ => false,
    })
    &&& p.height == raw.height
    &&& p.weight == raw.weight
    &&& p.birth_date@ == raw.birth_date
    &&& p.birth_city@ == raw.birth_city
}

/// Convert one raw record into a player. Succeeds exactly when every
/// code string is a known code; the only error is `UnknownCode`.
pub fn player_from_raw(raw: &RawPlayer) -> (r: Result<Player, SchemaError>)
    ensures
        r is Ok <==> raw_codes_valid(raw@),
        r matches Ok(p) ==> player_matches_raw(p, raw@),
        r matches Err(e) ==> e == SchemaError::UnknownCode,
{
    let status = match parse_status(raw.status.as_str()) {
        Some(s) => s,
        None => {
            return Err(SchemaError::UnknownCode);
        },
    };
    let team = match parse_team(raw.team.as_str()) {
        Some(t) => t,
        None => {
            return Err(SchemaError::UnknownCode);
        },
    };
    let position = match parse_position(raw.position.as_str()) {
        Some(p) => p,
        None => {
            return Err(SchemaError::UnknownCode);
        },
    };
    let injury_status = match parse_injury(raw.injury_status.as_str()) {
        Some(i) => i,
        None => {
            return Err(SchemaError::UnknownCode);
        },
    };
    let catches = match &raw.catches {
        Some(c) => match parse_catches(c.as_str()) {
            Some(x) => Some(x),
            None => {
                return Err(SchemaError::UnknownCode);
            },
        },
        None => None,
    };
    let shoots = match &raw.shoots {
        Some(s) => match parse_catches(s.as_str()) {
            Some(x) => Some(x),
            None => {
                return Err(SchemaError::UnknownCode);
            },
        },
        None => None,
    };
    Ok(Player {
        player_id: raw.player_id,
        first_name: raw.first_name.clone(),
        last_name: raw.last_name.clone(),
        status,
        team,
        position,
        jersey: raw.jersey,
        catches,
        shoots,
        height: raw.height,
        weight: raw.weight,
        birth_date: raw.birth_date.clone(),
        birth_city: raw.birth_city.clone(),
        injury_status,
    })
}

/// Convert a whole list of raw records, in order. Succeeds exactly when
/// every record's code strings are valid; the first invalid record
/// rejects the list, and the players carry the records' values one for
/// one.
pub fn players_from_raw(raws: &Vec<RawPlayer>) -> (r: Result<Vec<Player>, SchemaError>)
    ensures
        r is Ok <==> (forall|i: int| 0 <= i < raws@.len() ==> raw_codes_valid(raws@[i]@)),
        r matches Ok(ps) ==> {
            &&& ps@.len() == raws@.len()
            &&& forall|i: int| 0 <= i < raws@.len() ==> player_matches_raw(ps@[i], raws@[i]@)
        },
        r matches Err(e) ==> e == SchemaError::UnknownCode,
{
    let mut out: Vec<Player> = Vec::new();
    let mut k: usize = 0;
    while k < raws.len()
        invariant
            k <= raws@.len(),
            out@.len() == k,
            forall|i: int| 0 <= i < k ==> raw_codes_valid(raws@[i]@),
            forall|i: int| 0 <= i < k ==> player_matches_raw(out@[i], raws@[i]@),
        decreases raws@.len() - k,
    {
        match player_from_raw(&raws[k]) {
            Ok(p) => out.push(p),
            Err(e) => {
                return Err(e);
            },
        }
        k = k + 1;
    }
    Ok(out)
}

} // verus!
