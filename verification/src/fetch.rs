//! The compute half of the fetcher: building the roster endpoint URL
//! from the team code and the API key. Issuing the request is I/O and
//! lives with the caller.

use vstd::prelude::*;
use vstd::string::StringExecFns;

verus! {

/// The full endpoint URL: base, team code, then the key query parameter.
pub open spec fn spec_players_endpoint_url(team_key: Seq<char>, api_key: Seq<char>) -> Seq<char> {
    "https://api.sportsdata.io/v3/nhl/scores/json/Players/"@ + team_key + "?key="@ + api_key
}

/// Build the endpoint URL for one team's roster.
pub fn players_endpoint_url(team_key: &str, api_key: &str) -> (r: String)
    ensures
        r@ == spec_players_endpoint_url(team_key@, api_key@),
{
    let mut s = "https://api.sportsdata.io/v3/nhl/scores/json/Players/".to_owned();
    s.append(team_key);
    s.append("?key=");
    s.append(api_key);
    s
}

} // verus!
