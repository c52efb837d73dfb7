//! Running games: which bots to fetch first, the order in which matches are
//! played, what the game server is told for each match, and the decisions
//! taken while a match is set up.

use vstd::prelude::*;
use vstd::arithmetic::div_mod::lemma_fundamental_div_mod_converse;
use itertools::Itertools;
use rand::prelude::IteratorRandom;
use crate::download::arena_marker;
use crate::results::ResultsData;
use crate::settings::SettingsFormData;
use crate::text::{contains_str, same_text, seq_contains};

verus! {

/// The port on which the game server listens for bots.
pub const CLIENT_PORT: i32 = 8642;

/// The link to the game server's supervisor channel (opened by the
/// application).
#[derive(Clone, Copy, Debug, Default)]
pub struct Supervisor {}

/// A request to run games: every bot of `bot1` plays every bot of `bot2` on
/// every map of `map`, `iterations` times over.
#[derive(Clone, Debug, Default)]
pub struct RunGameData {
    pub bot1: Vec<String>,
    pub bot2: Vec<String>,
    pub map: Vec<String>,
    pub iterations: u64,
    pub visualize: bool,
    pub realtime: bool,
}

/// The settings of one match as the game server receives them.
#[derive(Clone, Debug)]
pub struct MatchConfig {
    pub map: String,
    pub disable_debug: bool,
    pub match_id: i64,
    pub player1: String,
    pub player2: String,
    pub real_time: bool,
    pub visualize: bool,
    pub max_game_time: u32,
}

/// A sequence with every element that equals the one before it left out.
pub open spec fn dedup_runs(s: Seq<Seq<char>>) -> Seq<Seq<char>>
    decreases s.len(),
{
    if s.len() <= 1 {
        s
    } else {
        let r = dedup_runs(s.drop_last());
        if s.last() == s[s.len() - 2] {
            r
        } else {
            r.push(s.last())
        }
    }
}

/// The names that carry the AI-Arena marker, in order.
pub open spec fn arena_names(s: Seq<Seq<char>>) -> Seq<Seq<char>> {
    s.filter(|x: Seq<char>| seq_contains(x, arena_marker()))
}

/// Leaves out every item equal to the item before it (itertools'
/// `Itertools::dedup`, which keeps the first item of each run of equal
/// items).
#[verifier::external_body]
fn dedup_consecutive(items: Vec<String>) -> (r: Vec<String>)
    ensures
        r.deep_view() == dedup_runs(items.deep_view()),
{
    items.into_iter().dedup().collect()
}

/// The AI-Arena bots among the players of a request, to be fetched before the
/// games: the players of `bot1` then of `bot2`, with repeats of the previous
/// name left out, keeping those that carry the AI-Arena marker.
pub fn bots_to_download(run_game_data: &RunGameData) -> (r: Vec<String>)
    ensures
        r.deep_view() == arena_names(
            dedup_runs(run_game_data.bot1.deep_view() + run_game_data.bot2.deep_view()),
        ),
{
    let mut all: Vec<String> = Vec::new();
    let n1 = run_game_data.bot1.len();
    let n2 = run_game_data.bot2.len();
    let ghost joined = run_game_data.bot1.deep_view() + run_game_data.bot2.deep_view();
    let mut i: usize = 0;
    while i < n1
        invariant
            n1 == run_game_data.bot1@.len(),
            i <= n1,
            all@.len() == i,
            forall|k: int| 0 <= k < i ==> all@[k]@ == run_game_data.bot1@[k]@,
        decreases n1 - i,
    {
        all.push(run_game_data.bot1[i].clone());
        i = i + 1;
    }
    let mut j: usize = 0;
    while j < n2
        invariant
            n1 == run_game_data.bot1@.len(),
            n2 == run_game_data.bot2@.len(),
            j <= n2,
            all@.len() == n1 + j,
            forall|k: int| 0 <= k < n1 ==> all@[k]@ == run_game_data.bot1@[k]@,
            forall|k: int| 0 <= k < j ==> all@[n1 + k]@ == run_game_data.bot2@[k]@,
        decreases n2 - j,
    {
        all.push(run_game_data.bot2[j].clone());
        j = j + 1;
    }
    assert(all.deep_view() =~= joined);
    let deduped = dedup_consecutive(all);
    let ghost d = deduped.deep_view();
    let mut out: Vec<String> = Vec::new();
    let mut k: usize = 0;
    while k < deduped.len()
        invariant
            d == deduped.deep_view(),
            k <= d.len(),
            out.deep_view() == arena_names(d.take(k as int)),
        decreases d.len() - k,
    {
        proof {
            reveal_with_fuel(Seq::<Seq<char>>::filter, 1);
            assert(d.take(k + 1).drop_last() =~= d.take(k as int));
        }
        if contains_str(deduped[k].as_str(), " (AI-Arena)") {
            out.push(deduped[k].clone());
            assert(out.deep_view() =~= arena_names(d.take(k as int)).push(d[k as int]));
        }
        k = k + 1;
    }
    assert(d.take(k as int) =~= d);
    out
}

/// Where a match stands in the order of play: which round, map and players.
#[derive(Clone, Copy, Debug)]
pub struct MatchCursor {
    pub iteration: u64,
    pub map: usize,
    pub bot1: usize,
    pub bot2: usize,
}

/// The number of matches a request asks for.
pub open spec fn schedule_size(run: &RunGameData) -> int {
    run.iterations * run.map@.len() * run.bot1@.len() * run.bot2@.len()
}

/// The cursor names a match of the request.
pub open spec fn cursor_valid(run: &RunGameData, c: MatchCursor) -> bool {
    &&& c.iteration < run.iterations
    &&& c.map < run.map@.len()
    &&& c.bot1 < run.bot1@.len()
    &&& c.bot2 < run.bot2@.len()
}

/// The position of a match in the order of play: rounds, then maps, then
/// first players, then second players.
pub open spec fn cursor_index(run: &RunGameData, c: MatchCursor) -> int {
    ((c.iteration * run.map@.len() + c.map) * run.bot1@.len() + c.bot1) * run.bot2@.len() + c.bot2
}

/// Moving on to the next first player.
proof fn lemma_next_bot1(i: int, mp: int, x: int, y: int, m: int, b1: int, b2: int)
    by (nonlinear_arith)
    requires
        y + 1 == b2,
    ensures
        ((i * m + mp) * b1 + (x + 1)) * b2 == ((i * m + mp) * b1 + x) * b2 + y + 1,
{
}

/// Moving on to the next map.
proof fn lemma_next_map(i: int, mp: int, x: int, y: int, m: int, b1: int, b2: int)
    by (nonlinear_arith)
    requires
        y + 1 == b2,
        x + 1 == b1,
    ensures
        ((i * m + (mp + 1)) * b1) * b2 == ((i * m + mp) * b1 + x) * b2 + y + 1,
{
}

/// Moving on to the next round.
proof fn lemma_next_round(i: int, mp: int, x: int, y: int, m: int, b1: int, b2: int)
    by (nonlinear_arith)
    requires
        y + 1 == b2,
        x + 1 == b1,
        mp + 1 == m,
    ensures
        (((i + 1) * m) * b1) * b2 == ((i * m + mp) * b1 + x) * b2 + y + 1,
        (i + 1) * m * b1 * b2 == ((i * m + mp) * b1 + x) * b2 + y + 1,
{
}

/// The valid positions are those below the size of the schedule.
proof fn lemma_index_bound(a: int, m: int, b: int, c: int, x: int, y: int, z: int, w: int)
    requires
        0 <= x < a,
        0 <= y < m,
        0 <= z < b,
        0 <= w < c,
    ensures
        0 <= ((x * m + y) * b + z) * c + w < a * m * b * c,
{
    assert(x * m + y < a * m) by (nonlinear_arith)
        requires
            0 <= x < a,
            0 <= y < m,
    {
        assert((x + 1) * m <= a * m);
    }
    assert((x * m + y) * b + z < a * m * b) by (nonlinear_arith)
        requires
            0 <= x * m + y < a * m,
            0 <= z < b,
    {
        assert((x * m + y + 1) * b <= a * m * b);
    }
    assert(((x * m + y) * b + z) * c + w < a * m * b * c) by (nonlinear_arith)
        requires
            0 <= (x * m + y) * b + z < a * m * b,
            0 <= w < c,
    {
        assert(((x * m + y) * b + z + 1) * c <= a * m * b * c);
    }
}

/// Law: the position of every match of a request lies within the schedule.
pub proof fn law_cursor_in_schedule(run: &RunGameData, c: MatchCursor)
    requires
        cursor_valid(run, c),
    ensures
        0 <= cursor_index(run, c) < schedule_size(run),
{
    lemma_index_bound(
        run.iterations as int,
        run.map@.len() as int,
        run.bot1@.len() as int,
        run.bot2@.len() as int,
        c.iteration as int,
        c.map as int,
        c.bot1 as int,
        c.bot2 as int,
    );
}

/// Law: different matches of a request have different positions, so that
/// walking the positions from the first to the last plays every match of
/// the request exactly once.
pub proof fn law_cursor_index_injective(run: &RunGameData, c1: MatchCursor, c2: MatchCursor)
    requires
        cursor_valid(run, c1),
        cursor_valid(run, c2),
        cursor_index(run, c1) == cursor_index(run, c2),
    ensures
        c1 == c2,
{
    let m = run.map@.len() as int;
    let b1 = run.bot1@.len() as int;
    let b2 = run.bot2@.len() as int;
    let x = cursor_index(run, c1);
    let q1 = (c1.iteration * m + c1.map) * b1 + c1.bot1;
    let q2 = (c2.iteration * m + c2.map) * b1 + c2.bot1;
    assert(q1 * b2 + c1.bot2 == x && q2 * b2 + c2.bot2 == x);
    lemma_fundamental_div_mod_converse(x, b2, q1, c1.bot2 as int);
    lemma_fundamental_div_mod_converse(x, b2, q2, c2.bot2 as int);
    let p1 = c1.iteration * m + c1.map;
    let p2 = c2.iteration * m + c2.map;
    lemma_fundamental_div_mod_converse(q1, b1, p1, c1.bot1 as int);
    lemma_fundamental_div_mod_converse(q1, b1, p2, c2.bot1 as int);
    lemma_fundamental_div_mod_converse(p1, m, c1.iteration as int, c1.map as int);
    lemma_fundamental_div_mod_converse(p1, m, c2.iteration as int, c2.map as int);
}

/// The first match of a request, if it asks for any.
pub fn first_match(run: &RunGameData) -> (r: Option<MatchCursor>)
    ensures
        match r {
            Some(c) => cursor_valid(run, c) && cursor_index(run, c) == 0,
            None => schedule_size(run) == 0,
        },
{
    if run.iterations == 0 || run.map.len() == 0 || run.bot1.len() == 0 || run.bot2.len() == 0 {
        proof {
            let a = run.iterations as int;
            let m = run.map@.len() as int;
            let b1 = run.bot1@.len() as int;
            let b2 = run.bot2@.len() as int;
            assert(a * m * b1 * b2 == 0) by (nonlinear_arith)
                requires
                    a == 0 || m == 0 || b1 == 0 || b2 == 0,
            ;
        }
        None
    } else {
        let c = MatchCursor { iteration: 0, map: 0, bot1: 0, bot2: 0 };
        proof {
            let m = run.map@.len() as int;
            let b1 = run.bot1@.len() as int;
            let b2 = run.bot2@.len() as int;
            assert(((0 * m + 0) * b1 + 0) * b2 + 0 == 0) by (nonlinear_arith);
        }
        Some(c)
    }
}

/// The match played after `c`, if `c` is not the last: the next second
/// player, or the first second player against the next first player, and so
/// on through maps and rounds.
pub fn next_match(run: &RunGameData, c: MatchCursor) -> (r: Option<MatchCursor>)
    requires
        cursor_valid(run, c),
    ensures
        match r {
            Some(n) => cursor_valid(run, n) && cursor_index(run, n) == cursor_index(run, c) + 1,
            None => cursor_index(run, c) + 1 == schedule_size(run),
        },
{
    let ghost it = c.iteration as int;
    let ghost mp = c.map as int;
    let ghost x = c.bot1 as int;
    let ghost y = c.bot2 as int;
    let ghost m = run.map@.len() as int;
    let ghost b1 = run.bot1@.len() as int;
    let ghost b2 = run.bot2@.len() as int;
    if c.bot2 < run.bot2.len() - 1 {
        return Some(MatchCursor { bot2: c.bot2 + 1, ..c });
    }
    if c.bot1 < run.bot1.len() - 1 {
        proof {
            lemma_next_bot1(it, mp, x, y, m, b1, b2);
        }
        return Some(MatchCursor { bot1: c.bot1 + 1, bot2: 0, ..c });
    }
    if c.map < run.map.len() - 1 {
        proof {
            lemma_next_map(it, mp, x, y, m, b1, b2);
        }
        return Some(MatchCursor { map: c.map + 1, bot1: 0, bot2: 0, ..c });
    }
    proof {
        lemma_next_round(it, mp, x, y, m, b1, b2);
    }
    if c.iteration < run.iterations - 1 {
        return Some(MatchCursor { iteration: c.iteration + 1, map: 0, bot1: 0, bot2: 0 });
    }
    None
}

/// A new map is chosen for the match at `c`: it is the first pairing of
/// players on that map in that round.
pub fn starts_map(c: MatchCursor) -> (r: bool)
    ensures
        r == (c.bot1 == 0 && c.bot2 == 0),
{
    c.bot1 == 0 && c.bot2 == 0
}

/// One of `choices`, picked at random (rand's `IteratorRandom::choose` with
/// the thread's generator); none only when there are no choices.
#[verifier::external_body]
fn random_choice(choices: &Vec<String>) -> (r: Option<String>)
    ensures
        r is None <==> choices@.len() == 0,
        r matches Some(c) ==> exists|i: int| 0 <= i < choices@.len() && choices@[i]@ == c@,
{
    choices.iter().choose(&mut rand::thread_rng()).cloned()
}

/// The map a match is played on: the requested entry, or, for `Random`, one
/// of the available maps picked at random.
pub fn resolve_map(entry: &String, available: &Vec<String>) -> (r: String)
    requires
        entry@ == "Random"@ ==> available@.len() > 0,
    ensures
        entry@ != "Random"@ ==> r@ == entry@,
        entry@ == "Random"@ ==> exists|i: int| 0 <= i < available@.len() && available@[i]@ == r@,
{
    if same_text(entry.as_str(), "Random") {
        random_choice(available).unwrap()
    } else {
        entry.clone()
    }
}

/// What the game server is told for one match: the request's display
/// settings, the settings' debug switch and game length limit (kept to its
/// low 32 bits), the players, the map and the match id.
pub fn match_config(
    settings: &SettingsFormData,
    run_game_data: &RunGameData,
    map: String,
    bot1: String,
    bot2: String,
    match_id: i64,
) -> (r: MatchConfig)
    ensures
        r.map == map,
        r.disable_debug == !settings.allow_debug,
        r.match_id == match_id,
        r.player1 == bot1,
        r.player2 == bot2,
        r.real_time == run_game_data.realtime,
        r.visualize == run_game_data.visualize,
        r.max_game_time == settings.max_game_time as u32,
{
    MatchConfig {
        map,
        disable_debug: !settings.allow_debug,
        match_id,
        player1: bot1,
        player2: bot2,
        real_time: run_game_data.realtime,
        visualize: run_game_data.visualize,
        max_game_time: settings.max_game_time as u32,
    }
}

/// What to do once the first bot was started and its reply has come, or not.
pub enum FirstBotStep {
    /// It connected: start the second bot.
    StartSecondBot,
    /// It answered without connecting: wait for the game's results.
    AwaitResults,
    /// It did not answer in time: the game is recorded as this report.
    Record(ResultsData),
}

/// What to do once the second bot was started and its reply has come, or not.
pub enum SecondBotStep {
    /// It answered: wait for the game's results.
    AwaitResults,
    /// It did not answer in time: reset the game server, then record this
    /// report.
    ResetAndRecord(ResultsData),
}

/// The step after the first bot's reply: `reply` is `None` when none came
/// in time, else whether the bot reports itself connected.
pub fn after_first_bot_reply(reply: Option<bool>, config: &MatchConfig) -> (r: FirstBotStep)
    ensures
        match reply {
            Some(true) => r is StartSecondBot,
            Some(false) => r is AwaitResults,
            None => r matches FirstBotStep::Record(d) && d.is_init_error_report(config),
        },
{
    match reply {
        Some(true) => FirstBotStep::StartSecondBot,
        Some(false) => FirstBotStep::AwaitResults,
        None => FirstBotStep::Record(ResultsData::init_error(config)),
    }
}

/// The step after the second bot's reply: `reply` is `None` when none came
/// in time, else whether the bot reports itself connected.
pub fn after_second_bot_reply(reply: Option<bool>, config: &MatchConfig) -> (r: SecondBotStep)
    ensures
        match reply {
            Some(_) => r is AwaitResults,
            None => r matches SecondBotStep::ResetAndRecord(d) && d.is_init_error_report(config),
        },
{
    match reply {
        Some(_) => SecondBotStep::AwaitResults,
        None => SecondBotStep::ResetAndRecord(ResultsData::init_error(config)),
    }
}

/// Whether a message from the game server carries the results of a game:
/// it mentions `MatchID`.
pub fn is_results_message(msg: &str) -> (r: bool)
    ensures
        r == seq_contains(msg@, "MatchID"@),
{
    contains_str(msg, "MatchID")
}

} // verus!
