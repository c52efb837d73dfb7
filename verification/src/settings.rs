//! The user's settings: where bots, the game and replays live, the API token,
//! and the game limits.

use vstd::prelude::*;

verus! {

/// The settings form as saved in the settings file.
#[derive(Clone, Debug, Default)]
pub struct SettingsFormData {
    pub bot_directory_location: String,
    pub sc2_directory_location: String,
    pub replay_directory_location: String,
    pub api_token: String,
    pub max_game_time: u64,
    pub allow_debug: bool,
}

/// The game length limit used when the settings file names none.
pub fn default_max_game_time() -> (r: u64)
    ensures
        r == 60480,
{
    60480
}

/// The settings are complete enough to run games: they could be loaded and
/// the bot, game and replay directories are all given.
pub fn settings_okay(loaded: Option<&SettingsFormData>) -> (r: bool)
    ensures
        r == match loaded {
            Some(s) => {
                &&& s.bot_directory_location@.len() > 0
                &&& s.sc2_directory_location@.len() > 0
                &&& s.replay_directory_location@.len() > 0
            },
            None => false,
        },
{
    if let Some(settings_data) = loaded {
        return !(settings_data.bot_directory_location.as_str().is_empty()
            || settings_data.sc2_directory_location.as_str().is_empty()
            || settings_data.replay_directory_location.as_str().is_empty());
    }
    false
}

/// The game directory to use when the settings leave it empty: the
/// `SC2_PROXY_BASE` location if that is set, else the `SC2PATH` location if
/// that is set, else nothing.
pub open spec fn fallback_sc2_directory(
    proxy_base: Option<Seq<char>>,
    sc2_path: Option<Seq<char>>,
) -> Seq<char> {
    match proxy_base {
        Some(p) => p,
        None => match sc2_path {
            Some(p) => p,
            None => Seq::empty(),
        },
    }
}

/// Law: the game directory filled in is the value of `SC2_PROXY_BASE`
/// whenever that is set, whatever `SC2PATH` holds; the value of `SC2PATH`
/// only when `SC2_PROXY_BASE` is unset; and empty when neither is set.
pub proof fn law_proxy_base_comes_first(
    proxy_base: Seq<char>,
    sc2_path: Option<Seq<char>>,
    path_value: Seq<char>,
)
    ensures
        fallback_sc2_directory(Some(proxy_base), sc2_path) == proxy_base,
        fallback_sc2_directory(None, Some(path_value)) == path_value,
        fallback_sc2_directory(None, None) == Seq::<char>::empty(),
{
}

/// Fills in an empty game directory from the environment (`proxy_base` is the
/// value of `SC2_PROXY_BASE`, `sc2_path` that of `SC2PATH`). Returns whether
/// the settings were filled in and so have to be saved again.
pub fn fill_sc2_directory(
    data: &mut SettingsFormData,
    proxy_base: Option<String>,
    sc2_path: Option<String>,
) -> (changed: bool)
    ensures
        changed == (old(data).sc2_directory_location@.len() == 0),
        changed ==> final(data).sc2_directory_location@ == fallback_sc2_directory(
            match proxy_base {
                Some(p) => Some(p@),
                None => None,
            },
            match sc2_path {
                Some(p) => Some(p@),
                None => None,
            },
        ),
        !changed ==> *final(data) == *old(data),
        final(data).bot_directory_location == old(data).bot_directory_location,
        final(data).replay_directory_location == old(data).replay_directory_location,
        final(data).api_token == old(data).api_token,
        final(data).max_game_time == old(data).max_game_time,
        final(data).allow_debug == old(data).allow_debug,
{
    if data.sc2_directory_location.as_str().is_empty() {
        data.sc2_directory_location = match proxy_base {
            Some(x) => x,
            None => match sc2_path {
                Some(x) => x,
                None => String::new(),
            },
        };
        true
    } else {
        false
    }
}

} // verus!
