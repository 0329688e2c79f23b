//! Configuration values for one invocation, and the query URL built from them.

use vstd::prelude::*;
use vstd::string::*;

verus! {

/// API credentials for the player-summary service, resolved once at startup
/// by the surrounding program and passed by reference to whoever needs them.
pub struct SteamConfig {
    pub api_key: String,
    pub user_id: String,
}

/// The whole program configuration.
pub struct Config {
    pub steam: SteamConfig,
}

/// The query URL for the player-summary endpoint, as a sequence of characters.
pub open spec fn url_of(api_key: Seq<char>, user_id: Seq<char>) -> Seq<char> {
    "http://api.steampowered.com/ISteamUser/GetPlayerSummaries/v0002/?key="@ + api_key
        + "&steamids="@ + user_id
}

/// Builds the GET URL whose query carries the API key and the target identifier.
pub fn player_summary_url(config: &SteamConfig) -> (r: String)
    ensures
        r@ == url_of(config.api_key@, config.user_id@),
{
    let mut url =
        "http://api.steampowered.com/ISteamUser/GetPlayerSummaries/v0002/?key=".to_owned();
    url.append(config.api_key.as_str());
    url.append("&steamids=");
    url.append(config.user_id.as_str());
    url
}

} // verus!
