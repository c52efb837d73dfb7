//! Finding the maps and bots that can be played, from directory listings.

use vstd::prelude::*;
use crate::settings::SettingsFormData;
use crate::text::{chars_of, push_char, replace_all, replace_str, same_text};

verus! {

/// A part of a path that names something: not empty, and not `.`.
pub open spec fn is_named_part(part: Seq<char>) -> bool {
    part.len() > 0 && part != "."@
}

/// `c` separates the parts of a path: `/` always, and `\` where
/// `backslash` says so (as on Windows).
pub open spec fn separates(c: char, backslash: bool) -> bool {
    c == '/' || (backslash && c == '\\')
}

/// Reading the path `p` from its start: the last part that names something
/// and is followed by a separator, if any, and the part being read after the
/// last separator.
pub open spec fn path_scan(p: Seq<char>, backslash: bool) -> (Option<Seq<char>>, Seq<char>)
    decreases p.len(),
{
    if p.len() == 0 {
        (None, Seq::empty())
    } else {
        let (named, current) = path_scan(p.drop_last(), backslash);
        if separates(p.last(), backslash) {
            (if is_named_part(current) { Some(current) } else { named }, Seq::empty())
        } else {
            (named, current.push(p.last()))
        }
    }
}

/// The last part of the path `p` that names something (empty parts and `.`
/// name nothing), if there is one.
pub open spec fn last_named_part(p: Seq<char>, backslash: bool) -> Option<Seq<char>> {
    let (named, current) = path_scan(p, backslash);
    if is_named_part(current) {
        Some(current)
    } else {
        named
    }
}

/// The final component of the relative path `p` (`Path::file_name`, with `\`
/// a separator when `backslash` holds): its last part that names something,
/// unless that part is `..`; none when there is no such part.
pub open spec fn path_file_name(p: Seq<char>, backslash: bool) -> Option<Seq<char>> {
    match last_named_part(p, backslash) {
        Some(part) => if part == ".."@ {
            None
        } else {
            Some(part)
        },
        None => None,
    }
}

/// The text inside an optional text.
pub open spec fn opt_text(o: Option<String>) -> Option<Seq<char>> {
    match o {
        Some(s) => Some(s@),
        None => None,
    }
}

/// Whether `c` separates the parts of a path on this machine
/// (`std::path::is_separator`). `/` does on every machine; whether `\` does
/// depends on the machine, so nothing more is stated.
#[verifier::external_body]
fn is_path_separator(c: char) -> (r: bool)
    ensures
        c == '/' ==> r,
{
    std::path::is_separator(c)
}

/// The final component of the relative path `path`, if it has one, where `\`
/// separates parts when `backslash` holds.
pub fn file_name_in(path: &str, backslash: bool) -> (r: Option<String>)
    ensures
        opt_text(r) == path_file_name(path@, backslash),
{
    let v = chars_of(path);
    let mut named: Option<String> = None;
    let mut current = String::new();
    let mut i: usize = 0;
    while i < v.len()
        invariant
            v@ == path@,
            i <= v@.len(),
            path_scan(path@.take(i as int), backslash) == (opt_text(named), current@),
        decreases v@.len() - i,
    {
        let c = v[i];
        assert(path@.take(i + 1).drop_last() =~= path@.take(i as int));
        assert(path@.take(i + 1).last() == c);
        if c == '/' || (backslash && c == '\\') {
            if !current.as_str().is_empty() && !same_text(current.as_str(), ".") {
                named = Some(current);
            }
            current = String::new();
        } else {
            push_char(&mut current, c);
        }
        i = i + 1;
    }
    assert(path@.take(i as int) =~= path@);
    let last = if !current.as_str().is_empty() && !same_text(current.as_str(), ".") {
        Some(current)
    } else {
        named
    };
    match last {
        Some(part) => if same_text(part.as_str(), "..") {
            None
        } else {
            Some(part)
        },
        None => None,
    }
}

/// The final component of the relative path `path` on this machine
/// (`Path::file_name`), if it has one: it is read with `\` a separator
/// exactly when this machine treats `\` as one.
pub fn file_name_of(path: &str) -> (r: Option<String>)
    ensures
        opt_text(r) == path_file_name(path@, false) || opt_text(r) == path_file_name(
            path@,
            true,
        ),
{
    let backslash = is_path_separator('\\');
    file_name_in(path, backslash)
}

/// The name of the map stored at `path`: the final component of the path
/// with every `.SC2Map` taken out.
pub open spec fn map_name_of(path: Seq<char>, backslash: bool) -> Seq<char> {
    replace_all(path_file_name(path, backslash).unwrap(), ".SC2Map"@, Seq::empty())
}

/// A map's name, where `\` separates parts when `backslash` holds: the
/// final component of its path, with every `.SC2Map` taken out.
pub fn map_name_in(map_name: &str, backslash: bool) -> (r: String)
    requires
        path_file_name(map_name@, backslash) is Some,
    ensures
        r@ == map_name_of(map_name@, backslash),
{
    proof {
        reveal_strlit(".SC2Map");
        reveal_strlit("");
        assert(""@ =~= Seq::<char>::empty());
    }
    let file_name = file_name_in(map_name, backslash).unwrap();
    replace_str(file_name.as_str(), ".SC2Map", "")
}

/// The path has a final component whether or not `\` separates parts.
pub open spec fn has_file_name(path: Seq<char>) -> bool {
    path_file_name(path, false) is Some && path_file_name(path, true) is Some
}

/// A map's name on this machine: the final component of its path (read as
/// `file_name_of` reads it), with every `.SC2Map` taken out.
pub fn normalize_map_name(map_name: &str) -> (r: String)
    requires
        has_file_name(map_name@),
    ensures
        r@ == map_name_of(map_name@, false) || r@ == map_name_of(map_name@, true),
{
    let backslash = is_path_separator('\\');
    map_name_in(map_name, backslash)
}

/// A file found where maps are kept: its path below the maps directory and
/// its extension.
#[derive(Clone, Debug)]
pub struct MapFile {
    pub path: String,
    pub extension: String,
}

/// The file is a map: its extension is `SC2Map`.
pub open spec fn is_map_file(f: MapFile) -> bool {
    f.extension@ == "SC2Map"@
}

/// The names of the maps among the files, in order: the files with the
/// extension `SC2Map`, named by `map_name_of` their paths.
pub open spec fn listed_maps(files: Seq<MapFile>, backslash: bool) -> Seq<Seq<char>>
    decreases files.len(),
{
    if files.len() == 0 {
        Seq::empty()
    } else {
        let r = listed_maps(files.drop_last(), backslash);
        if is_map_file(files.last()) {
            r.push(map_name_of(files.last().path@, backslash))
        } else {
            r
        }
    }
}

/// The names of the maps among the files, where `\` separates the parts of
/// their paths when `backslash` holds. Every map file's path has a final
/// component.
pub fn map_names_in(files: &Vec<MapFile>, backslash: bool) -> (r: Vec<String>)
    requires
        forall|i: int|
            0 <= i < files@.len() && #[trigger] is_map_file(files@[i]) ==> path_file_name(
                files@[i].path@,
                backslash,
            ) is Some,
    ensures
        r.deep_view() == listed_maps(files@, backslash),
{
    let mut out: Vec<String> = Vec::new();
    let mut i: usize = 0;
    while i < files.len()
        invariant
            i <= files@.len(),
            forall|k: int|
                0 <= k < files@.len() && #[trigger] is_map_file(files@[k]) ==> path_file_name(
                    files@[k].path@,
                    backslash,
                ) is Some,
            out.deep_view() == listed_maps(files@.take(i as int), backslash),
        decreases files@.len() - i,
    {
        assert(files@.take(i + 1).drop_last() =~= files@.take(i as int));
        assert(files@.take(i + 1).last() == files@[i as int]);
        if same_text(files[i].extension.as_str(), "SC2Map") {
            assert(is_map_file(files@[i as int]));
            let name = map_name_in(files[i].path.as_str(), backslash);
            let ghost before = out.deep_view();
            out.push(name);
            assert(out.deep_view() =~= before.push(name@));
        }
        i = i + 1;
    }
    assert(files@.take(i as int) =~= files@);
    out
}

/// The names of the maps among the files found in the maps directory and
/// its subdirectories, their paths read as this machine reads them. Every
/// map file's path has a final component.
pub fn map_names(files: &Vec<MapFile>) -> (r: Vec<String>)
    requires
        forall|i: int|
            0 <= i < files@.len() && #[trigger] is_map_file(files@[i]) ==> has_file_name(
                files@[i].path@,
            ),
    ensures
        r.deep_view() == listed_maps(files@, false) || r.deep_view() == listed_maps(
            files@,
            true,
        ),
{
    let backslash = is_path_separator('\\');
    map_names_in(files, backslash)
}

/// The directory in which to look for maps, when the settings give one: the
/// game directory of loaded settings, unless it is empty. Otherwise the
/// game's default location is used.
pub fn maps_base_directory(loaded: Option<&SettingsFormData>) -> (r: Option<String>)
    ensures
        match loaded {
            Some(s) => if s.sc2_directory_location@.len() == 0 {
                r is None
            } else {
                r == Some(s.sc2_directory_location)
            },
            None => r is None,
        },
{
    match loaded {
        Some(settings) => {
            if settings.sc2_directory_location.as_str().is_empty() {
                None
            } else {
                Some(settings.sc2_directory_location.clone())
            }
        },
        None => None,
    }
}

/// A folder in the bots directory and the names of the files in it.
#[derive(Clone, Debug)]
pub struct BotFolder {
    pub name: String,
    pub files: Vec<String>,
}

/// The folder holds a `ladderbots.json`.
pub open spec fn holds_ladderbots(f: BotFolder) -> bool {
    exists|j: int| 0 <= j < f.files@.len() && f.files@[j]@ == "ladderbots.json"@
}

/// Law: a folder holds a bot exactly when some file of it, at any position,
/// is named `ladderbots.json`.
pub proof fn law_ladderbots_anywhere(f: BotFolder)
    ensures
        holds_ladderbots(f) <==> exists|j: int|
            0 <= j < f.files@.len() && #[trigger] f.files@[j]@ == "ladderbots.json"@,
{
}

/// Law: two folders with the same files, in whatever order, both hold a bot
/// or both do not; and a folder with one more file holds a bot exactly when
/// the smaller one does or the added file is `ladderbots.json`.
pub proof fn law_ladderbots_order_free(f: BotFolder, g: BotFolder, extra: String)
    ensures
        ((forall|j: int| 0 <= j < f.files@.len() ==> #[trigger] g.files@.contains(f.files@[j]))
            && (forall|k: int| 0 <= k < g.files@.len() ==> #[trigger] f.files@.contains(
            g.files@[k],
        ))) ==> holds_ladderbots(f) == holds_ladderbots(g),
        g.files@ == f.files@.push(extra) ==> (holds_ladderbots(g) <==> (holds_ladderbots(f)
            || extra@ == "ladderbots.json"@)),
{
    if (forall|j: int| 0 <= j < f.files@.len() ==> #[trigger] g.files@.contains(f.files@[j]))
        && (forall|k: int| 0 <= k < g.files@.len() ==> #[trigger] f.files@.contains(g.files@[k])) {
        if holds_ladderbots(f) {
            let j = choose|j: int| 0 <= j < f.files@.len() && f.files@[j]@ == "ladderbots.json"@;
            assert(g.files@.contains(f.files@[j]));
        }
        if holds_ladderbots(g) {
            let k = choose|k: int| 0 <= k < g.files@.len() && g.files@[k]@ == "ladderbots.json"@;
            assert(f.files@.contains(g.files@[k]));
        }
    }
    if g.files@ == f.files@.push(extra) {
        if holds_ladderbots(f) {
            let j = choose|j: int| 0 <= j < f.files@.len() && f.files@[j]@ == "ladderbots.json"@;
            assert(g.files@[j] == f.files@[j]);
        }
        if extra@ == "ladderbots.json"@ {
            assert(g.files@[f.files@.len() as int] == extra);
        }
        if holds_ladderbots(g) {
            let k = choose|k: int| 0 <= k < g.files@.len() && g.files@[k]@ == "ladderbots.json"@;
            if k < f.files@.len() {
                assert(f.files@[k] == g.files@[k]);
            }
        }
    }
}

/// The names of the folders that hold a bot, in order.
pub open spec fn listed_bots(folders: Seq<BotFolder>) -> Seq<Seq<char>>
    decreases folders.len(),
{
    if folders.len() == 0 {
        Seq::empty()
    } else {
        let r = listed_bots(folders.drop_last());
        if holds_ladderbots(folders.last()) {
            r.push(folders.last().name@)
        } else {
            r
        }
    }
}

/// Whether a folder holds a `ladderbots.json`.
pub fn folder_holds_ladderbots(folder: &BotFolder) -> (r: bool)
    ensures
        r == holds_ladderbots(*folder),
{
    let mut j: usize = 0;
    while j < folder.files.len()
        invariant
            j <= folder.files@.len(),
            forall|k: int| 0 <= k < j ==> folder.files@[k]@ != "ladderbots.json"@,
        decreases folder.files@.len() - j,
    {
        if same_text(folder.files[j].as_str(), "ladderbots.json") {
            return true;
        }
        j = j + 1;
    }
    false
}

/// The bots that can play: the folders of the bots directory that hold a
/// `ladderbots.json`.
pub fn bot_names(folders: &Vec<BotFolder>) -> (r: Vec<String>)
    ensures
        r.deep_view() == listed_bots(folders@),
{
    let mut out: Vec<String> = Vec::new();
    let mut i: usize = 0;
    while i < folders.len()
        invariant
            i <= folders@.len(),
            out.deep_view() == listed_bots(folders@.take(i as int)),
        decreases folders@.len() - i,
    {
        assert(folders@.take(i + 1).drop_last() =~= folders@.take(i as int));
        if folder_holds_ladderbots(&folders[i]) {
            let ghost before = out.deep_view();
            out.push(folders[i].name.clone());
            assert(out.deep_view() =~= before.push(folders@[i as int].name@));
        }
        i = i + 1;
    }
    assert(folders@.take(i as int) =~= folders@);
    out
}

} // verus!
