//! Deciding which AI-Arena bots to download, and the names and addresses
//! that a download uses.

use vstd::prelude::*;
use crate::api::{AiarenaApiBot, AiarenaApiBots};
use crate::errors::MyError;
use crate::hashes::{opt_text, with_zip_hash, BotHashView, MD5HashesFile};
use crate::text::{
    text_of, concat2, concat3, contains_str, law_replace_absent, occurs_at, replace_all, replace_str,
    same_text, seq_contains,
};

verus! {

/// The marker that the GUI appends to the names of AI-Arena bots.
pub open spec fn arena_marker() -> Seq<char> {
    " (AI-Arena)"@
}

/// A bot name with every AI-Arena marker taken out.
pub fn normalize_bot_name(name: &str) -> (r: String)
    ensures
        r@ == replace_all(name@, arena_marker(), Seq::empty()),
{
    proof {
        reveal_strlit(" (AI-Arena)");
        reveal_strlit("");
        assert(""@ =~= Seq::<char>::empty());
    }
    replace_str(name, " (AI-Arena)", "")
}

/// The address of the listing of all publicly downloadable bots, by name.
pub fn bots_listing_url() -> (r: String)
    ensures
        r@ == "https://aiarena.net"@
            + "/api/bots/?&format=json&bot_zip_publicly_downloadable=true&ordering=name"@,
{
    let mut r = text_of("https://aiarena.net");
    r.append("/api/bots/?&format=json&bot_zip_publicly_downloadable=true&ordering=name");
    r
}

/// The address of the details of the bot called `name`.
pub fn bot_details_url(name: &str) -> (r: String)
    ensures
        r@ == "https://aiarena.net"@ + "/api/bots/?format=json&name="@ + name@,
{
    concat3("https://aiarena.net", "/api/bots/?format=json&name=", name)
}

/// The value of the `Authorization` header for an API token.
pub fn authorization_header(token: &str) -> (r: String)
    ensures
        r@ == "Token  "@ + token@,
{
    concat2("Token  ", token)
}

/// The file name under which the archive of bot `name` is saved.
pub fn zip_file_name(name: &str) -> (r: String)
    ensures
        r@ == name@ + " (AI-Arena).zip"@,
{
    concat2(name, " (AI-Arena).zip")
}

/// The directory into which the archive of bot `name` is extracted.
pub fn extract_directory_name(name: &str) -> (r: String)
    ensures
        r@ == name@ + arena_marker(),
{
    concat2(name, " (AI-Arena)")
}

/// The recorded hashes give cause to download `bot` again: none are recorded
/// for it, or its data hash differs from the recorded archive hash.
pub fn zip_hash_outdated(hashes: &MD5HashesFile, bot: &AiarenaApiBot) -> (r: bool)
    ensures
        r == hashes_outdated(hashes@, *bot),
{
    match hashes.get_hash(bot.name.as_str()) {
        None => true,
        Some(bot_hash) => match (&bot.bot_data_md5hash, bot_hash.get_zip_hash()) {
            (Some(a), Some(b)) => !same_text(a.as_str(), b.as_str()),
            (None, None) => false,
            _ => true,
        },
    }
}

/// Law: once an archive hash is recorded for a bot, the recorded hashes give
/// cause to download that bot again exactly when its listed data hash
/// differs from the recorded archive hash.
pub proof fn law_outdated_after_recording(
    hashes: Map<Seq<char>, BotHashView>,
    name: Seq<char>,
    zip_hash: Seq<char>,
    data_hash: Option<Seq<char>>,
)
    ensures
        ({
            let after = with_zip_hash(hashes, name, zip_hash);
            (!after.contains_key(name) || data_hash != after[name].zip) <==> data_hash != Some(
                zip_hash,
            )
        }),
{
}

/// Some directory path names the bot: contains `bot_name`.
pub fn bot_folder_present(dir_paths: &Vec<String>, bot_name: &str) -> (r: bool)
    ensures
        r == folder_named(dir_paths@, bot_name@),
{
    let mut i: usize = 0;
    while i < dir_paths.len()
        invariant
            i <= dir_paths@.len(),
            forall|j: int| 0 <= j < i ==> !seq_contains(dir_paths@[j]@, bot_name@),
        decreases dir_paths@.len() - i,
    {
        if contains_str(dir_paths[i].as_str(), bot_name) {
            return true;
        }
        i = i + 1;
    }
    false
}

/// The recorded hashes give cause to download `bot` again.
pub open spec fn hashes_outdated(hashes: Map<Seq<char>, BotHashView>, bot: AiarenaApiBot) -> bool {
    !hashes.contains_key(bot.name@) || opt_text(bot.bot_data_md5hash) != hashes[bot.name@].zip
}

/// Some directory path contains `name`.
pub open spec fn folder_named(dir_paths: Seq<String>, name: Seq<char>) -> bool {
    exists|i: int| 0 <= i < dir_paths.len() && seq_contains(dir_paths[i]@, name)
}

/// Law: some bot folder names the bot exactly when the bot's name occurs,
/// at some position, inside some directory path, at any position of the
/// list.
pub proof fn law_folder_named_anywhere(dir_paths: Seq<String>, name: Seq<char>)
    ensures
        folder_named(dir_paths, name) <==> exists|i: int, k: int|
            0 <= i < dir_paths.len() && 0 <= k && k + name.len() <= dir_paths[i]@.len()
                && #[trigger] dir_paths[i]@.subrange(k, k + name.len()) == name,
{
    if folder_named(dir_paths, name) {
        let i = choose|i: int| 0 <= i < dir_paths.len() && seq_contains(dir_paths[i]@, name);
        let k = choose|k: int| occurs_at(dir_paths[i]@, name, k);
        assert(dir_paths[i]@.subrange(k, k + name.len()) == name);
    }
    if exists|i: int, k: int|
        0 <= i < dir_paths.len() && 0 <= k && k + name.len() <= dir_paths[i]@.len()
            && #[trigger] dir_paths[i]@.subrange(k, k + name.len()) == name {
        let (i, k) = choose|i: int, k: int|
            0 <= i < dir_paths.len() && 0 <= k && k + name.len() <= dir_paths[i]@.len()
                && #[trigger] dir_paths[i]@.subrange(k, k + name.len()) == name;
        assert(occurs_at(dir_paths[i]@, name, k));
        assert(seq_contains(dir_paths[i]@, name));
    }
}

/// Law: the folder test does not depend on the order of the folders: lists
/// with the same paths agree, and one more path names the bot when the
/// shorter list did or the added path contains the name.
pub proof fn law_folder_named_order_free(
    a: Seq<String>,
    b: Seq<String>,
    extra: String,
    name: Seq<char>,
)
    ensures
        ((forall|i: int| 0 <= i < a.len() ==> #[trigger] b.contains(a[i])) && (forall|j: int|
            0 <= j < b.len() ==> #[trigger] a.contains(b[j]))) ==> folder_named(a, name)
            == folder_named(b, name),
        folder_named(a.push(extra), name) <==> (folder_named(a, name) || seq_contains(
            extra@,
            name,
        )),
{
    if (forall|i: int| 0 <= i < a.len() ==> #[trigger] b.contains(a[i])) && (forall|j: int|
        0 <= j < b.len() ==> #[trigger] a.contains(b[j])) {
        if folder_named(a, name) {
            let i = choose|i: int| 0 <= i < a.len() && seq_contains(a[i]@, name);
            assert(b.contains(a[i]));
        }
        if folder_named(b, name) {
            let j = choose|j: int| 0 <= j < b.len() && seq_contains(b[j]@, name);
            assert(a.contains(b[j]));
        }
    }
    let c = a.push(extra);
    if folder_named(a, name) {
        let i = choose|i: int| 0 <= i < a.len() && seq_contains(a[i]@, name);
        assert(c[i] == a[i]);
    }
    if seq_contains(extra@, name) {
        assert(c[a.len() as int] == extra);
    }
    if folder_named(c, name) {
        let i = choose|i: int| 0 <= i < c.len() && seq_contains(c[i]@, name);
        if i < a.len() {
            assert(a[i] == c[i]);
        }
    }
}

/// What to do about the archive of a bot.
#[derive(Clone, Debug)]
pub enum ZipStep {
    /// The hashes are current: look at the bot folders, and decide again
    /// with their paths.
    CheckFolders,
    /// Download the archive from this address.
    Fetch(String),
    /// Keep what is there.
    Keep,
}

/// What to do about the archive of `bot`. Its archive is stale when the
/// recorded hashes are outdated, or else when no bot folder (`dir_paths`,
/// once they have been looked at) names the bot; a stale archive is
/// downloaded from the bot's archive address, if it has one.
pub fn zip_step(hashes: &MD5HashesFile, bot: &AiarenaApiBot, dir_paths: Option<&Vec<String>>) -> (r:
    ZipStep)
    ensures
        ({
            let outdated = hashes_outdated(hashes@, *bot);
            let stale = outdated || (dir_paths is Some && !folder_named(
                dir_paths.unwrap()@,
                bot.name@,
            ));
            &&& (r is CheckFolders) <==> (!outdated && dir_paths is None)
            &&& (outdated || dir_paths is Some) ==> if stale && bot.bot_zip is Some {
                r == ZipStep::Fetch(bot.bot_zip.unwrap())
            } else {
                r is Keep
            }
        }),
{
    let stale = if zip_hash_outdated(hashes, bot) {
        true
    } else {
        match dir_paths {
            None => return ZipStep::CheckFolders,
            Some(dirs) => !bot_folder_present(dirs, bot.name.as_str()),
        }
    };
    if stale {
        match &bot.bot_zip {
            Some(url) => ZipStep::Fetch(url.clone()),
            None => ZipStep::Keep,
        }
    } else {
        ZipStep::Keep
    }
}

/// Records the archive hash that AI-Arena lists for `bot` as its recorded
/// archive hash, as is done after every look at its archive.
pub fn record_zip_hash(hashes: &mut MD5HashesFile, bot: &AiarenaApiBot)
    requires
        bot.bot_zip_md5hash is Some,
    ensures
        final(hashes)@ == with_zip_hash(
            old(hashes)@,
            bot.name@,
            bot.bot_zip_md5hash.unwrap()@,
        ),
{
    match &bot.bot_zip_md5hash {
        Some(hash) => hashes.update_zip_hash(bot.name.as_str(), hash.as_str()),
        None => {},
    }
}

/// `name` is one of the requested bot names once the markers are taken out.
pub open spec fn is_requested(requested: Seq<Seq<char>>, name: Seq<char>) -> bool {
    exists|j: int|
        0 <= j < requested.len() && replace_all(requested[j], arena_marker(), Seq::empty())
            == name
}

/// Law: a listed bot is fetched for the requested names exactly when its
/// name equals one of them once the AI-Arena marker is taken out; a bot
/// whose name merely occurs inside a requested name is not fetched.
pub proof fn law_requested_means_equal(requested: Seq<Seq<char>>, name: Seq<char>)
    ensures
        is_requested(requested, name) <==> exists|j: int|
            0 <= j < requested.len() && #[trigger] replace_all(
                requested[j],
                arena_marker(),
                Seq::empty(),
            ) == name,
{
}

/// Law: a single requested name that carries no AI-Arena marker fetches the
/// bot of exactly that name and no other; and asking for one more name adds
/// exactly the bots of that name.
pub proof fn law_requested_single(
    requested: Seq<Seq<char>>,
    one: Seq<char>,
    name: Seq<char>,
)
    ensures
        !seq_contains(one, arena_marker()) ==> (is_requested(seq![one], name) <==> name == one),
        is_requested(requested.push(one), name) <==> (is_requested(requested, name)
            || replace_all(one, arena_marker(), Seq::empty()) == name),
{
    reveal_strlit(" (AI-Arena)");
    if !seq_contains(one, arena_marker()) {
        law_replace_absent(one, arena_marker(), Seq::empty());
        assert(seq![one][0] == one);
    }
    let c = requested.push(one);
    if is_requested(requested, name) {
        let j = choose|j: int|
            0 <= j < requested.len() && replace_all(requested[j], arena_marker(), Seq::empty())
                == name;
        assert(c[j] == requested[j]);
    }
    if replace_all(one, arena_marker(), Seq::empty()) == name {
        assert(c[requested.len() as int] == one);
    }
    if is_requested(c, name) {
        let j = choose|j: int|
            0 <= j < c.len() && replace_all(c[j], arena_marker(), Seq::empty()) == name;
        if j < requested.len() {
            assert(requested[j] == c[j]);
        }
    }
}

/// Whether `s` is one of the texts of `list`.
fn list_has(list: &Vec<String>, s: &str) -> (r: bool)
    ensures
        r == exists|j: int| 0 <= j < list@.len() && list@[j]@ == s@,
{
    let mut j: usize = 0;
    while j < list.len()
        invariant
            j <= list@.len(),
            forall|k: int| 0 <= k < j ==> list@[k]@ != s@,
        decreases list@.len() - j,
    {
        if same_text(list[j].as_str(), s) {
            return true;
        }
        j = j + 1;
    }
    false
}

/// The positions, in order, of the listed AI-Arena bots that were requested
/// (requested names may carry the AI-Arena marker).
pub fn bots_to_fetch(api: &AiarenaApiBots, requested: &Vec<String>) -> (r: Vec<usize>)
    ensures
        forall|k: int, l: int| 0 <= k < l < r@.len() ==> r@[k] < r@[l],
        forall|k: int|
            0 <= k < r@.len() ==> r@[k] < api.results@.len() && is_requested(
                requested.deep_view(),
                api.results@[r@[k] as int].name@,
            ),
        forall|i: int|
            0 <= i < api.results@.len() && is_requested(
                requested.deep_view(),
                api.results@[i].name@,
            ) ==> r@.contains(i as usize),
{
    let mut normalized: Vec<String> = Vec::new();
    let mut j: usize = 0;
    while j < requested.len()
        invariant
            j <= requested@.len(),
            normalized@.len() == j,
            forall|k: int|
                0 <= k < j ==> normalized@[k]@ == replace_all(
                    requested@[k]@,
                    arena_marker(),
                    Seq::empty(),
                ),
        decreases requested@.len() - j,
    {
        normalized.push(normalize_bot_name(requested[j].as_str()));
        j = j + 1;
    }
    let mut r: Vec<usize> = Vec::new();
    let mut i: usize = 0;
    while i < api.results.len()
        invariant
            i <= api.results@.len(),
            normalized@.len() == requested@.len(),
            forall|k: int|
                0 <= k < requested@.len() ==> normalized@[k]@ == replace_all(
                    requested@[k]@,
                    arena_marker(),
                    Seq::empty(),
                ),
            forall|k: int| 0 <= k < r@.len() ==> r@[k] < i,
            forall|k: int, l: int| 0 <= k < l < r@.len() ==> r@[k] < r@[l],
            forall|k: int|
                0 <= k < r@.len() ==> is_requested(
                    requested.deep_view(),
                    api.results@[r@[k] as int].name@,
                ),
            forall|m: int|
                0 <= m < i && is_requested(requested.deep_view(), api.results@[m].name@)
                    ==> r@.contains(m as usize),
        decreases api.results@.len() - i,
    {
        let name = api.results[i].name.as_str();
        let wanted = list_has(&normalized, name);
        proof {
            if wanted {
                let j0 = choose|j0: int| 0 <= j0 < normalized@.len() && normalized@[j0]@ == name@;
                assert(requested.deep_view()[j0] == requested@[j0]@);
            }
            if is_requested(requested.deep_view(), name@) {
                let j0 = choose|j0: int|
                    0 <= j0 < requested.deep_view().len() && replace_all(
                        requested.deep_view()[j0],
                        arena_marker(),
                        Seq::empty(),
                    ) == name@;
                assert(requested.deep_view()[j0] == requested@[j0]@);
                assert(normalized@[j0]@ == name@);
            }
        }
        let ghost old_r = r@;
        if wanted {
            r.push(i);
            proof {
                assert(r@[r@.len() - 1] == i);
                assert forall|x: usize| old_r.contains(x) implies r@.contains(x) by {
                    let k = choose|k: int| 0 <= k < old_r.len() && old_r[k] == x;
                    assert(r@[k] == x);
                }
            }
        }
        i = i + 1;
    }
    r
}

/// The first bot of a listing; an empty listing means the API could not be
/// reached.
pub fn first_api_bot(api: AiarenaApiBots) -> (r: Result<AiarenaApiBot, MyError>)
    ensures
        match r {
            Ok(bot) => api.results@.len() > 0 && bot == api.results@[0],
            Err(e) => api.results@.len() == 0 && e.message@ == "Could not connect to AiArena API"@,
        },
{
    let mut results = api.results;
    if results.len() == 0 {
        Err(MyError::from_text("Could not connect to AiArena API"))
    } else {
        Ok(results.remove(0))
    }
}

} // verus!
