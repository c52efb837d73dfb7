//! Results of played games: deciding who won from the per-bot reports, and
//! the record kept of every game.

use std::collections::HashMap;
use vstd::prelude::*;
use crate::games::MatchConfig;
use crate::str_map::StrMap;
use crate::text::{same_text, text_of};

verus! {

broadcast use vstd::std_specs::hash::group_hash_axioms;

/// What the first player's report decides, as (winner, result), if anything.
pub open spec fn player1_decision(report: Seq<char>, p1: Seq<char>, p2: Seq<char>) -> Option<
    (Seq<char>, Seq<char>),
> {
    if report == "Crash"@ {
        Some((p2, "Player1Crash"@))
    } else if report == "Timeout"@ {
        Some((p2, "Player1TimeOut"@))
    } else if report == "Victory"@ {
        Some((p1, "Player1Win"@))
    } else if report == "Defeat"@ {
        Some((p2, "Player2Win"@))
    } else if report == "Tie"@ {
        Some(("Tie"@, "Tie"@))
    } else if report == "InitializationError"@ {
        Some((Seq::empty(), "InitializationError"@))
    } else {
        None
    }
}

/// What the second player's report decides, as (winner, result), if anything.
pub open spec fn player2_decision(report: Seq<char>, p1: Seq<char>, p2: Seq<char>) -> Option<
    (Seq<char>, Seq<char>),
> {
    if report == "Crash"@ {
        Some((p1, "Player2Crash"@))
    } else if report == "Timeout"@ {
        Some((p1, "Player2TimeOut"@))
    } else if report == "Victory"@ {
        Some((p2, "Player2Win"@))
    } else if report == "Defeat"@ {
        Some((p1, "Player1Win"@))
    } else if report == "Tie"@ {
        Some(("Tie"@, "Tie"@))
    } else if report == "InitializationError"@ {
        Some((Seq::empty(), "InitializationError"@))
    } else {
        None
    }
}

/// The outcome that is recorded when nothing decides the game.
pub open spec fn error_outcome() -> (Seq<char>, Seq<char>) {
    (Seq::empty(), "Error"@)
}

/// The report the game server sends back for a finished game (the parts of it
/// that decide the outcome and that are kept).
#[derive(Clone, Debug)]
pub struct ResultsData {
    /// The result reported for each bot, by bot name.
    pub results: StrMap<String>,
    /// Game length in game loops.
    pub game_time: u64,
    pub status: String,
    /// The bots by player number (1 and 2).
    pub bots: HashMap<u8, String>,
    pub map: String,
    pub replay_path: String,
    pub match_id: i64,
}

impl ResultsData {
    /// The name of player 1.
    pub open spec fn bot1_name(&self) -> Seq<char> {
        self.bots@[1u8]@
    }

    /// The name of player 2.
    pub open spec fn bot2_name(&self) -> Seq<char> {
        self.bots@[2u8]@
    }

    /// Both player numbers have a bot.
    pub open spec fn has_players(&self) -> bool {
        self.bots@.contains_key(1u8) && self.bots@.contains_key(2u8)
    }

    /// The game server itself crashed: some bot's result reads `SC2Crash`.
    pub open spec fn server_crashed(&self) -> bool {
        exists|k: Seq<char>| self.results@.contains_key(k) && self.results@[k]@ == "SC2Crash"@
    }

    /// The reports needed to decide the outcome are there: both players, and,
    /// unless the server crashed, player 1's report, and player 2's report
    /// whenever player 1's decides nothing.
    pub open spec fn outcome_defined(&self) -> bool {
        &&& self.has_players()
        &&& !self.server_crashed() ==> {
            &&& self.results@.contains_key(self.bot1_name())
            &&& player1_decision(
                self.results@[self.bot1_name()]@,
                self.bot1_name(),
                self.bot2_name(),
            ) is None ==> self.results@.contains_key(self.bot2_name())
        }
    }

    /// The (winner, result) of the game.
    pub open spec fn outcome(&self) -> (Seq<char>, Seq<char>) {
        let p1 = self.bot1_name();
        let p2 = self.bot2_name();
        if self.server_crashed() {
            error_outcome()
        } else {
            match player1_decision(self.results@[p1]@, p1, p2) {
                Some(d) => d,
                None => match player2_decision(self.results@[p2]@, p1, p2) {
                    Some(d) => d,
                    None => error_outcome(),
                },
            }
        }
    }

    /// Gathers the parts of a game report.
    pub fn new(
        results: StrMap<String>,
        game_time: u64,
        status: String,
        bots: HashMap<u8, String>,
        map: String,
        replay_path: String,
        match_id: i64,
    ) -> (r: Self)
        ensures
            r.results == results,
            r.game_time == game_time,
            r.status == status,
            r.bots == bots,
            r.map == map,
            r.replay_path == replay_path,
            r.match_id == match_id,
    {
        ResultsData { results, game_time, status, bots, map, replay_path, match_id }
    }

    /// The name of player 1.
    pub fn get_bot1(&self) -> (r: String)
        requires
            self.bots@.contains_key(1u8),
        ensures
            r@ == self.bot1_name(),
    {
        self.bots.get(&1u8).unwrap().clone()
    }

    /// The name of player 2.
    pub fn get_bot2(&self) -> (r: String)
        requires
            self.bots@.contains_key(2u8),
        ensures
            r@ == self.bot2_name(),
    {
        self.bots.get(&2u8).unwrap().clone()
    }

    /// The map the game was played on.
    pub fn get_map(&self) -> (r: String)
        ensures
            r == self.map,
    {
        self.map.clone()
    }

    /// Whether the reports needed to decide the outcome are there.
    pub fn has_outcome(&self) -> (r: bool)
        ensures
            r == self.outcome_defined(),
    {
        if self.bots.get(&1u8).is_none() || self.bots.get(&2u8).is_none() {
            return false;
        }
        let p1 = self.get_bot1();
        let p2 = self.get_bot2();
        if self.results.any_value_is("SC2Crash") {
            return true;
        }
        match self.results.get(p1.as_str()) {
            None => false,
            Some(r1) => match decide_player1(r1.as_str(), &p1, &p2) {
                Some(_) => true,
                None => self.results.contains_key(p2.as_str()),
            },
        }
    }

    /// The (winner, result) of the game: a server crash is an error;
    /// otherwise player 1's report decides if it can, then player 2's, and
    /// if neither can, the game is an error.
    pub fn get_winner_result(&self) -> (r: (String, String))
        requires
            self.outcome_defined(),
        ensures
            (r.0@, r.1@) == self.outcome(),
    {
        let p1 = self.get_bot1();
        let p2 = self.get_bot2();
        if self.results.any_value_is("SC2Crash") {
            return (String::new(), text_of("Error"));
        }
        let r1 = self.results.get(p1.as_str()).unwrap();
        match decide_player1(r1.as_str(), &p1, &p2) {
            Some(d) => d,
            None => {
                let r2 = self.results.get(p2.as_str()).unwrap();
                match decide_player2(r2.as_str(), &p1, &p2) {
                    Some(d) => d,
                    None => (String::new(), text_of("Error")),
                }
            },
        }
    }

    /// The report recorded for a game that could not be started: both
    /// players get `InitializationError`.
    pub fn init_error(config: &MatchConfig) -> (r: Self)
        ensures
            r.is_init_error_report(config),
    {
        let mut results: StrMap<String> = StrMap::new();
        results.insert(config.player1.clone(), text_of("InitializationError"));
        results.insert(config.player2.clone(), text_of("InitializationError"));
        let mut bots: HashMap<u8, String> = HashMap::new();
        bots.insert(1u8, config.player1.clone());
        bots.insert(2u8, config.player2.clone());
        ResultsData {
            results,
            game_time: 0,
            status: text_of("Completed"),
            bots,
            map: config.map.clone(),
            replay_path: String::new(),
            match_id: config.match_id,
        }
    }

    /// This is the report recorded when the match `config` could not start.
    pub open spec fn is_init_error_report(&self, config: &MatchConfig) -> bool {
        &&& self.is_init_error_for(config.player1@, config.player2@)
        &&& self.game_time == 0
        &&& self.status@ == "Completed"@
        &&& self.map == config.map
        &&& self.replay_path@ == Seq::<char>::empty()
        &&& self.match_id == config.match_id
    }

    /// The bots are `p1` and `p2`, under the player numbers 1 and 2 and no
    /// other, and each of them, and nothing else, is
    /// reported as `InitializationError`.
    pub open spec fn is_init_error_for(&self, p1: Seq<char>, p2: Seq<char>) -> bool {
        &&& self.bots@.dom() == set![1u8, 2u8]
        &&& self.bot1_name() == p1
        &&& self.bot2_name() == p2
        &&& self.results@.dom() == set![p1, p2]
        &&& forall|k: Seq<char>|
            #[trigger] self.results@.contains_key(k) ==> self.results@[k]@
                == "InitializationError"@
    }
}

/// The report and result texts are all different from one another.
proof fn lemma_outcome_texts()
    ensures
        "Crash"@.len() == 5,
        "Timeout"@.len() == 7 && "Timeout"@[0] == 'T',
        "Victory"@.len() == 7 && "Victory"@[0] == 'V',
        "Defeat"@.len() == 6,
        "Tie"@.len() == 3,
        "InitializationError"@.len() == 19,
        "SC2Crash"@.len() == 8,
        "Error"@.len() == 5,
        "Player1Win"@.len() == 10 && "Player1Win"@[6] == '1',
        "Player2Win"@.len() == 10 && "Player2Win"@[6] == '2',
        "Player1Crash"@.len() == 12 && "Player1Crash"@[6] == '1',
        "Player2Crash"@.len() == 12 && "Player2Crash"@[6] == '2',
        "Player1TimeOut"@.len() == 14 && "Player1TimeOut"@[6] == '1',
        "Player2TimeOut"@.len() == 14 && "Player2TimeOut"@[6] == '2',
{
    reveal_strlit("Crash");
    reveal_strlit("Timeout");
    reveal_strlit("Victory");
    reveal_strlit("Defeat");
    reveal_strlit("Tie");
    reveal_strlit("InitializationError");
    reveal_strlit("SC2Crash");
    reveal_strlit("Error");
    reveal_strlit("Player1Win");
    reveal_strlit("Player2Win");
    reveal_strlit("Player1Crash");
    reveal_strlit("Player2Crash");
    reveal_strlit("Player1TimeOut");
    reveal_strlit("Player2TimeOut");
}

/// Law: when the game server crashed, the game is an error and nobody won.
pub proof fn law_server_crash_is_error(d: ResultsData)
    requires
        d.server_crashed(),
    ensures
        d.outcome() == error_outcome(),
{
}

/// Law: the recorded winner agrees with the recorded result: a win for a
/// player names that player, a crash or time-out of one player names the
/// other, a tie names `Tie`, and an error names nobody.
pub proof fn law_winner_agrees_with_result(d: ResultsData)
    ensures
        d.outcome().1 == "Player1Win"@ ==> d.outcome().0 == d.bot1_name(),
        d.outcome().1 == "Player2Win"@ ==> d.outcome().0 == d.bot2_name(),
        d.outcome().1 == "Player1Crash"@ || d.outcome().1 == "Player1TimeOut"@ ==> d.outcome().0
            == d.bot2_name(),
        d.outcome().1 == "Player2Crash"@ || d.outcome().1 == "Player2TimeOut"@ ==> d.outcome().0
            == d.bot1_name(),
        d.outcome().1 == "Tie"@ ==> d.outcome().0 == "Tie"@,
        d.outcome().1 == "Error"@ || d.outcome().1 == "InitializationError"@ ==> d.outcome().0
            == Seq::<char>::empty(),
{
    lemma_outcome_texts();
}

/// Law: a game that could not be started is recorded as an initialization
/// error with no winner.
pub proof fn law_init_error_outcome(d: ResultsData, p1: Seq<char>, p2: Seq<char>)
    requires
        d.is_init_error_for(p1, p2),
    ensures
        d.outcome_defined(),
        d.outcome() == (Seq::<char>::empty(), "InitializationError"@),
{
    lemma_outcome_texts();
    assert(d.results@.contains_key(p1));
    assert(!d.server_crashed());
}

/// One of the six reports that decide a game by themselves.
pub open spec fn is_deciding_report(report: Seq<char>) -> bool {
    ||| report == "Crash"@
    ||| report == "Timeout"@
    ||| report == "Victory"@
    ||| report == "Defeat"@
    ||| report == "Tie"@
    ||| report == "InitializationError"@
}

/// Law: the winner and result of a report can be computed exactly when both
/// players are named and either some bot's result reads `SC2Crash`, or
/// player 1 has a result that is one of the six deciding reports, or both
/// players have a result.
pub proof fn law_outcome_defined_exactly(d: ResultsData)
    ensures
        d.outcome_defined() <==> {
            &&& d.bots@.contains_key(1u8)
            &&& d.bots@.contains_key(2u8)
            &&& {
                ||| d.server_crashed()
                ||| (d.results@.contains_key(d.bot1_name()) && is_deciding_report(
                    d.results@[d.bot1_name()]@,
                ))
                ||| (d.results@.contains_key(d.bot1_name()) && d.results@.contains_key(
                    d.bot2_name(),
                ))
            }
        },
{
    let p1 = d.bot1_name();
    let p2 = d.bot2_name();
    assert forall|r: Seq<char>|
        #![trigger player1_decision(r, p1, p2)]
        (player1_decision(r, p1, p2) is Some) <==> is_deciding_report(r) by {}
}

/// Law: unless the game server crashed, player 1's report decides the game
/// whenever it is one of the six deciding reports, whatever player 2
/// reported: a crash or time-out of player 1 makes player 2 the winner, a
/// victory makes player 1 the winner, a defeat makes player 2 the winner, a
/// tie is a tie, and an initialization error names nobody.
pub proof fn law_player1_report_decides(d: ResultsData)
    requires
        d.outcome_defined(),
        !d.server_crashed(),
    ensures
        ({
            let p1 = d.bot1_name();
            let p2 = d.bot2_name();
            let r1 = d.results@[p1]@;
            &&& r1 == "Crash"@ ==> d.outcome() == (p2, "Player1Crash"@)
            &&& r1 == "Timeout"@ ==> d.outcome() == (p2, "Player1TimeOut"@)
            &&& r1 == "Victory"@ ==> d.outcome() == (p1, "Player1Win"@)
            &&& r1 == "Defeat"@ ==> d.outcome() == (p2, "Player2Win"@)
            &&& r1 == "Tie"@ ==> d.outcome() == ("Tie"@, "Tie"@)
            &&& r1 == "InitializationError"@ ==> d.outcome() == (
                Seq::<char>::empty(),
                "InitializationError"@,
            )
        }),
{
    lemma_outcome_texts();
}

/// Law: unless the game server crashed, when player 1's report is none of
/// the six deciding reports, player 2's report decides: a crash or time-out
/// of player 2 makes player 1 the winner, a victory makes player 2 the
/// winner, a defeat makes player 1 the winner, a tie is a tie, an
/// initialization error names nobody, and any other report is an error.
pub proof fn law_player2_report_decides_otherwise(d: ResultsData)
    requires
        d.outcome_defined(),
        !d.server_crashed(),
        d.results@[d.bot1_name()]@ != "Crash"@,
        d.results@[d.bot1_name()]@ != "Timeout"@,
        d.results@[d.bot1_name()]@ != "Victory"@,
        d.results@[d.bot1_name()]@ != "Defeat"@,
        d.results@[d.bot1_name()]@ != "Tie"@,
        d.results@[d.bot1_name()]@ != "InitializationError"@,
    ensures
        ({
            let p1 = d.bot1_name();
            let p2 = d.bot2_name();
            let r2 = d.results@[p2]@;
            &&& r2 == "Crash"@ ==> d.outcome() == (p1, "Player2Crash"@)
            &&& r2 == "Timeout"@ ==> d.outcome() == (p1, "Player2TimeOut"@)
            &&& r2 == "Victory"@ ==> d.outcome() == (p2, "Player2Win"@)
            &&& r2 == "Defeat"@ ==> d.outcome() == (p1, "Player1Win"@)
            &&& r2 == "Tie"@ ==> d.outcome() == ("Tie"@, "Tie"@)
            &&& r2 == "InitializationError"@ ==> d.outcome() == (
                Seq::<char>::empty(),
                "InitializationError"@,
            )
            &&& (r2 != "Crash"@ && r2 != "Timeout"@ && r2 != "Victory"@ && r2 != "Defeat"@
                && r2 != "Tie"@ && r2 != "InitializationError"@) ==> d.outcome() == (
                Seq::<char>::empty(),
                "Error"@,
            )
        }),
{
    lemma_outcome_texts();
}

/// The decision of player 1's report, as owned texts.
fn decide_player1(report: &str, p1: &String, p2: &String) -> (d: Option<(String, String)>)
    ensures
        match d {
            Some(x) => player1_decision(report@, p1@, p2@) == Some((x.0@, x.1@)),
            None => player1_decision(report@, p1@, p2@) is None,
        },
{
    if same_text(report, "Crash") {
        Some((p2.clone(), text_of("Player1Crash")))
    } else if same_text(report, "Timeout") {
        Some((p2.clone(), text_of("Player1TimeOut")))
    } else if same_text(report, "Victory") {
        Some((p1.clone(), text_of("Player1Win")))
    } else if same_text(report, "Defeat") {
        Some((p2.clone(), text_of("Player2Win")))
    } else if same_text(report, "Tie") {
        Some((text_of("Tie"), text_of("Tie")))
    } else if same_text(report, "InitializationError") {
        Some((String::new(), text_of("InitializationError")))
    } else {
        None
    }
}

/// The decision of player 2's report, as owned texts.
fn decide_player2(report: &str, p1: &String, p2: &String) -> (d: Option<(String, String)>)
    ensures
        match d {
            Some(x) => player2_decision(report@, p1@, p2@) == Some((x.0@, x.1@)),
            None => player2_decision(report@, p1@, p2@) is None,
        },
{
    if same_text(report, "Crash") {
        Some((p1.clone(), text_of("Player2Crash")))
    } else if same_text(report, "Timeout") {
        Some((p1.clone(), text_of("Player2TimeOut")))
    } else if same_text(report, "Victory") {
        Some((p2.clone(), text_of("Player2Win")))
    } else if same_text(report, "Defeat") {
        Some((p1.clone(), text_of("Player1Win")))
    } else if same_text(report, "Tie") {
        Some((text_of("Tie"), text_of("Tie")))
    } else if same_text(report, "InitializationError") {
        Some((String::new(), text_of("InitializationError")))
    } else {
        None
    }
}

/// The record kept of one game.
#[derive(Clone, Debug, Default)]
pub struct GameResult {
    pub match_id: i64,
    pub bot1: String,
    pub bot2: String,
    pub winner: String,
    pub map: String,
    pub result: String,
    pub game_time: u64,
    pub game_time_formatted: String,
    pub time_stamp: String,
    pub replay_path: String,
}

impl GameResult {
    /// The record of the game that `results_data` reports.
    pub fn from(results_data: ResultsData) -> (r: GameResult)
        requires
            results_data.outcome_defined(),
        ensures
            r.match_id == results_data.match_id,
            r.bot1@ == results_data.bot1_name(),
            r.bot2@ == results_data.bot2_name(),
            (r.winner@, r.result@) == results_data.outcome(),
            r.map == results_data.map,
            r.game_time == results_data.game_time,
            r.game_time_formatted@ == Seq::<char>::empty(),
            r.time_stamp@ == Seq::<char>::empty(),
            r.replay_path == results_data.replay_path,
    {
        let (winner, result) = results_data.get_winner_result();
        GameResult {
            match_id: results_data.match_id,
            bot1: results_data.get_bot1(),
            bot2: results_data.get_bot2(),
            winner,
            map: results_data.map,
            result,
            game_time: results_data.game_time,
            game_time_formatted: String::new(),
            time_stamp: String::new(),
            replay_path: results_data.replay_path,
        }
    }
}

/// The highest match id among the records, or 0 when there are none.
pub open spec fn highest_match_id(s: Seq<GameResult>) -> i64
    decreases s.len(),
{
    if s.len() == 0 {
        0
    } else if s.len() == 1 {
        s[0].match_id
    } else {
        let m = highest_match_id(s.drop_last());
        if s.last().match_id > m {
            s.last().match_id
        } else {
            m
        }
    }
}

/// The record of all games played, as kept in the results file.
#[derive(Debug, Default)]
pub struct FileResultsData {
    pub results: Vec<GameResult>,
}

impl FileResultsData {
    /// Appends the record of one game.
    pub fn add_result(&mut self, result: GameResult)
        ensures
            final(self).results@ == old(self).results@.push(result),
    {
        self.results.push(result)
    }

    /// The highest match id recorded, or 0 when nothing is recorded.
    pub fn max_match_id(&self) -> (m: i64)
        ensures
            m == highest_match_id(self.results@),
    {
        let n = self.results.len();
        if n == 0 {
            return 0;
        }
        let mut m = self.results[0].match_id;
        let mut i: usize = 1;
        assert(self.results@.take(1).drop_last() =~= Seq::<GameResult>::empty());
        while i < n
            invariant
                n == self.results@.len(),
                1 <= i <= n,
                m == highest_match_id(self.results@.take(i as int)),
            decreases n - i,
        {
            let id = self.results[i].match_id;
            assert(self.results@.take(i + 1).drop_last() =~= self.results@.take(i as int));
            if id > m {
                m = id;
            }
            i = i + 1;
        }
        assert(self.results@.take(n as int) =~= self.results@);
        m
    }
}

/// Every recorded match id is at most the highest one.
pub proof fn lemma_highest_is_upper_bound(s: Seq<GameResult>, i: int)
    requires
        0 <= i < s.len(),
    ensures
        s[i].match_id <= highest_match_id(s),
    decreases s.len(),
{
    if i < s.len() - 1 {
        lemma_highest_is_upper_bound(s.drop_last(), i);
        assert(s.drop_last()[i] == s[i]);
    }
}

/// The highest match id is the id of some record, unless there are none.
pub proof fn lemma_highest_is_recorded(s: Seq<GameResult>)
    requires
        s.len() > 0,
    ensures
        exists|i: int| 0 <= i < s.len() && s[i].match_id == highest_match_id(s),
    decreases s.len(),
{
    if s.len() > 1 {
        lemma_highest_is_recorded(s.drop_last());
        let i = choose|i: int|
            0 <= i < s.drop_last().len() && s.drop_last()[i].match_id == highest_match_id(
                s.drop_last(),
            );
        assert(s[i] == s.drop_last()[i]);
        assert(s[s.len() - 1] == s.last());
    } else {
        assert(s[0].match_id == highest_match_id(s));
    }
}

/// Law: recording a game makes the highest match id the larger of the previous
/// highest and the new game's id (or the new id, when nothing was recorded).
pub proof fn law_max_match_id_after_add(before: Seq<GameResult>, result: GameResult)
    ensures
        highest_match_id(before.push(result)) == if before.len() == 0 {
            result.match_id
        } else if result.match_id > highest_match_id(before) {
            result.match_id
        } else {
            highest_match_id(before)
        },
{
    assert(before.push(result).drop_last() =~= before);
}

/// The report shape used when the game server answers with an error.
#[derive(Clone, Debug, Default)]
pub struct ErrorResultsData {
    pub result: String,
}

} // verus!
