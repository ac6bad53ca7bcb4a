use vstd::prelude::*;

verus! {

/// Where the catalog of owned titles is fetched from: the key of the web
/// API and the account whose games are listed.
pub struct ServiceConfig {
    pub api_key: String,
    pub steam_id: String,
}

/// The address of the owned-games query for the given key and account,
/// asking for names and a JSON answer.
pub open spec fn owned_games_url_of(api_key: Seq<char>, steam_id: Seq<char>) -> Seq<char> {
    "https://api.steampowered.com/IPlayerService/GetOwnedGames/v0001/?key="@ + api_key
        + "&steamid="@ + steam_id + "&include_appinfo=true&format=json"@
}

impl ServiceConfig {
    /// The address to send the owned-games request to.
    pub fn owned_games_url(&self) -> (r: String)
        ensures
            r@ == owned_games_url_of(self.api_key@, self.steam_id@),
    {
        let mut url = String::from_str(
            "https://api.steampowered.com/IPlayerService/GetOwnedGames/v0001/?key=",
        );
        url.append(self.api_key.as_str());
        url.append("&steamid=");
        url.append(self.steam_id.as_str());
        url.append("&include_appinfo=true&format=json");
        url
    }
}

} // verus!
