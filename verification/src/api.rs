//! The shapes of what the AI-Arena web API and this backend's own API
//! exchange.

use vstd::prelude::*;

verus! {

/// The maps that can be played.
#[derive(Clone, Debug, Default)]
pub struct Maps {
    pub maps: Vec<String>,
}

/// The bots that can play.
#[derive(Clone, Debug, Default)]
pub struct Bots {
    pub bots: Vec<String>,
}

/// One page of the AI-Arena bot listing.
#[derive(Debug, Default)]
pub struct AiarenaApiBots {
    pub count: u64,
    pub next: Option<String>,
    pub previous: Option<String>,
    pub results: Vec<AiarenaApiBot>,
}

/// One bot as AI-Arena describes it.
#[derive(Clone, Debug, Default)]
pub struct AiarenaApiBot {
    pub id: i64,
    pub user: i64,
    pub name: String,
    pub created: String,
    pub plays_race: String,
    pub bot_type: String,
    pub game_display_id: String,
    pub bot_zip_updated: Option<String>,
    pub bot_zip_publicly_downloadable: bool,
    pub bot_zip: Option<String>,
    pub bot_zip_md5hash: Option<String>,
    pub bot_data_publicly_downloadable: bool,
    pub bot_data: Option<String>,
    pub bot_data_md5hash: Option<String>,
}

} // verus!
