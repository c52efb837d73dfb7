//! Bots: download progress, the `ladderbots.json` description of a bot, and
//! how a bot is launched.

use vstd::prelude::*;
use crate::api::AiarenaApiBot;
use crate::errors::MyError;
use crate::str_map::StrMap;
use crate::text::{text_of, ascii_lower, same_text, to_ascii_lowercase};

verus! {

/// `crossbeam::channel::Receiver`, the receiving end of a channel.
#[verifier::external_type_specification]
#[verifier::external_body]
#[verifier::reject_recursive_types(T)]
pub struct ExReceiver<T>(crossbeam::channel::Receiver<T>);

/// `std::path::PathBuf`, an owned file system path.
#[verifier::external_type_specification]
#[verifier::external_body]
pub struct ExPathBuf(std::path::PathBuf);

/// Which of the two players.
#[derive(Clone, Copy, Debug)]
pub enum BotNumber {
    One,
    Two,
}

/// How far the download of a bot has come.
#[derive(Clone, Copy, Debug)]
pub enum BotDownloadStatus {
    NotApplicable,
    Pending,
    DetailRequest,
    ZipDownload,
    ZipExtract,
    Complete,
    Error,
}

impl BotDownloadStatus {
    /// The download has ended, or there was none to do.
    pub open spec fn spec_is_done(self) -> bool {
        self is NotApplicable || self is Complete || self is Error
    }

    /// Whether the download has ended, or there was none to do.
    pub fn is_done(&self) -> (r: bool)
        ensures
            r == self.spec_is_done(),
    {
        match self {
            BotDownloadStatus::NotApplicable | BotDownloadStatus::Complete
            | BotDownloadStatus::Error => true,
            _ => false,
        }
    }
}

/// A channel on which a download reports its progress, if there is one.
pub type OptionalReceiver = Option<crossbeam::channel::Receiver<BotDownloadStatus>>;

/// Takes the next progress report waiting on `channel`, if one is waiting
/// (`Receiver::try_recv`). Whether one is waiting depends on the other
/// threads, so nothing is stated of the result.
#[verifier::external_body]
fn try_receive(channel: &crossbeam::channel::Receiver<BotDownloadStatus>) -> Option<
    BotDownloadStatus,
> {
    channel.try_recv().ok()
}

/// The downloads of the two players' bots and the channels they report on.
pub struct ToDownload {
    bot_statuses: (BotDownloadStatus, BotDownloadStatus),
    bot_channels: (OptionalReceiver, OptionalReceiver),
}

impl ToDownload {
    /// The status of each player's download.
    pub closed spec fn statuses(&self) -> (BotDownloadStatus, BotDownloadStatus) {
        self.bot_statuses
    }

    /// Whether each player's download has a channel.
    pub closed spec fn has_channels(&self) -> (bool, bool) {
        (self.bot_channels.0 is Some, self.bot_channels.1 is Some)
    }

    /// Nothing to download and no channels.
    pub fn new() -> (r: Self)
        ensures
            r.statuses() == (BotDownloadStatus::NotApplicable, BotDownloadStatus::NotApplicable),
            r.has_channels() == (false, false),
    {
        ToDownload {
            bot_statuses: (BotDownloadStatus::NotApplicable, BotDownloadStatus::NotApplicable),
            bot_channels: (None, None),
        }
    }

    /// The status of one player's download.
    pub fn status(&self, bot_number: BotNumber) -> (r: BotDownloadStatus)
        ensures
            r == match bot_number {
                BotNumber::One => self.statuses().0,
                BotNumber::Two => self.statuses().1,
            },
    {
        match bot_number {
            BotNumber::One => self.bot_statuses.0,
            BotNumber::Two => self.bot_statuses.1,
        }
    }

    /// Sets the channel on which one player's download reports.
    pub fn add_channel(&mut self, bot_number: BotNumber, channel: OptionalReceiver)
        ensures
            final(self).statuses() == old(self).statuses(),
            final(self).has_channels() == match bot_number {
                BotNumber::One => (channel is Some, old(self).has_channels().1),
                BotNumber::Two => (old(self).has_channels().0, channel is Some),
            },
    {
        match bot_number {
            BotNumber::One => self.bot_channels.0 = channel,
            BotNumber::Two => self.bot_channels.1 = channel,
        }
    }

    /// Sets the status of one player's download.
    pub fn update_status(&mut self, bot_number: BotNumber, status: BotDownloadStatus)
        ensures
            final(self).has_channels() == old(self).has_channels(),
            final(self).statuses() == match bot_number {
                BotNumber::One => (status, old(self).statuses().1),
                BotNumber::Two => (old(self).statuses().0, status),
            },
    {
        match bot_number {
            BotNumber::One => self.bot_statuses.0 = status,
            BotNumber::Two => self.bot_statuses.1 = status,
        }
    }

    /// The statuses after the progress reports `reports` came in: a report
    /// that came replaces the status of its download, and a download for
    /// which none came keeps its status.
    pub open spec fn statuses_after(
        statuses: (BotDownloadStatus, BotDownloadStatus),
        reports: (Option<BotDownloadStatus>, Option<BotDownloadStatus>),
    ) -> (BotDownloadStatus, BotDownloadStatus) {
        (
            match reports.0 {
                Some(s) => s,
                None => statuses.0,
            },
            match reports.1 {
                Some(s) => s,
                None => statuses.1,
            },
        )
    }

    /// Takes in the progress reports that came, one for each player's
    /// download, as the new statuses of those downloads.
    pub fn apply_reports(
        &mut self,
        reports: (Option<BotDownloadStatus>, Option<BotDownloadStatus>),
    )
        ensures
            final(self).has_channels() == old(self).has_channels(),
            final(self).statuses() == Self::statuses_after(old(self).statuses(), reports),
    {
        if let Some(msg) = reports.0 {
            self.bot_statuses.0 = msg;
        }
        if let Some(msg) = reports.1 {
            self.bot_statuses.1 = msg;
        }
    }

    /// Takes the progress report waiting on each channel, if any, as the new
    /// status of that download. Which reports are waiting depends on the
    /// downloads running elsewhere; a download without a channel gets none and
    /// keeps its status.
    pub fn update_statuses(&mut self)
        ensures
            final(self).has_channels() == old(self).has_channels(),
            exists|reports: (Option<BotDownloadStatus>, Option<BotDownloadStatus>)|
                {
                    &&& (!old(self).has_channels().0 ==> reports.0 is None)
                    &&& (!old(self).has_channels().1 ==> reports.1 is None)
                    &&& final(self).statuses() == #[trigger] Self::statuses_after(
                        old(self).statuses(),
                        reports,
                    )
                },
    {
        let report0 = match &self.bot_channels.0 {
            None => None,
            Some(channel) => try_receive(channel),
        };
        let report1 = match &self.bot_channels.1 {
            None => None,
            Some(channel) => try_receive(channel),
        };
        let reports = (report0, report1);
        self.apply_reports(reports);
        assert(self.statuses() == Self::statuses_after(old(self).statuses(), reports));
    }

    /// Whether to keep waiting for the downloads: as long as neither of them
    /// has ended.
    pub fn keep_waiting(&self) -> (r: bool)
        ensures
            r == (!self.statuses().0.spec_is_done() && !self.statuses().1.spec_is_done()),
    {
        !self.bot_statuses.0.is_done() && !self.bot_statuses.1.is_done()
    }
}

/// The description of one bot in its `ladderbots.json`.
#[derive(Clone, Debug, Default)]
pub struct BotJson {
    pub name: String,
    pub race: String,
    pub bot_type: String,
    pub root_path: String,
    pub file_name: String,
    pub debug: bool,
}

/// The contents of a `ladderbots.json`: the bots it describes, by name.
#[derive(Clone, Debug, Default)]
pub struct LadderBotsJson {
    pub bots: StrMap<BotJson>,
}

/// The `ladderbots.json` entry that describes an AI-Arena bot.
pub fn bot_json_for(ai_arena_bot: &AiarenaApiBot) -> (r: BotJson)
    ensures
        r.name == ai_arena_bot.name,
        r.race == ai_arena_bot.plays_race,
        r.bot_type == ai_arena_bot.bot_type,
        r.root_path@ == Seq::<char>::empty(),
        r.file_name@ == Seq::<char>::empty(),
        !r.debug,
{
    BotJson {
        name: ai_arena_bot.name.clone(),
        race: ai_arena_bot.plays_race.clone(),
        bot_type: ai_arena_bot.bot_type.clone(),
        root_path: String::new(),
        file_name: String::new(),
        debug: false,
    }
}

impl LadderBotsJson {
    /// Builds the bot table for an AI-Arena bot. The table is not kept.
    pub fn from(ai_arena_bot: &AiarenaApiBot) {
        let mut bots: StrMap<BotJson> = StrMap::new();
        bots.insert(ai_arena_bot.name.clone(), bot_json_for(ai_arena_bot));
    }

    /// Saving is not done; this always succeeds.
    pub fn save_to_file(_path: std::path::PathBuf) -> (r: Result<(), MyError>)
        ensures
            r is Ok,
    {
        Ok(())
    }
}

/// The bot that a `ladderbots.json` describes: the last entry of its table,
/// named by its key. A table without entries is an error.
pub fn bot_from_ladderbots(ladder_bots_json: LadderBotsJson) -> (r: Result<BotJson, MyError>)
    ensures
        match r {
            Ok(bot) => {
                let p = ladder_bots_json.bots.pairs();
                &&& p.len() > 0
                &&& bot.name@ == p.last().0
                &&& bot.race == p.last().1.race
                &&& bot.bot_type == p.last().1.bot_type
                &&& bot.root_path == p.last().1.root_path
                &&& bot.file_name == p.last().1.file_name
                &&& bot.debug == p.last().1.debug
            },
            Err(e) => ladder_bots_json.bots.pairs().len() == 0 && e.message@
                == "ladderbots.json error"@,
        },
{
    let ghost p = ladder_bots_json.bots.pairs();
    let mut entries = ladder_bots_json.bots.into_entries();
    match entries.pop() {
        None => Err(MyError::from_text("ladderbots.json error")),
        Some((name, bot)) => {
            proof {
                assert(p.last() == (name@, bot));
            }
            let mut bot = bot;
            bot.name = name;
            Ok(bot)
        },
    }
}

/// The arguments every bot is started with, before its kind adjusts them.
pub open spec fn base_launch_args(file_name: Seq<char>, port: Seq<char>, opponent_id: Seq<char>) -> Seq<
    Seq<char>,
> {
    seq![
        file_name,
        "--GamePort"@,
        port,
        "--StartPort"@,
        port,
        "--LadderServer"@,
        "127.0.0.1"@,
        "--OpponentId"@,
        opponent_id,
    ]
}

/// What to run to start a bot.
#[derive(Clone, Debug)]
pub enum StartCommand {
    /// A program found by name.
    Program(String),
    /// The given file in the bots directory.
    BotsDirectoryFile(String),
}

/// The command and arguments that start a bot.
#[derive(Clone, Debug)]
pub struct LaunchPlan {
    pub command: StartCommand,
    pub args: Vec<String>,
}

/// How to start `bot`, which talks to the game on `port` and plays
/// `opponent_id`. The bot's type, in ASCII lower case, decides: `dotnetcore`
/// runs under `dotnet`, `binarycpp` runs its file from the bots directory
/// directly, `java` runs with `java -jar`, `nodejs` under `node`, and any other
/// type names the program itself.
pub fn launch_plan(bot: &BotJson, port: &str, opponent_id: &str) -> (r: LaunchPlan)
    ensures
        ({
            let kind = ascii_lower(bot.bot_type@);
            let base = base_launch_args(bot.file_name@, port@, opponent_id@);
            if kind == "dotnetcore"@ {
                r.command matches StartCommand::Program(p) && p@ == "dotnet"@ && r.args.deep_view()
                    == base
            } else if kind == "binarycpp"@ {
                r.command matches StartCommand::BotsDirectoryFile(f) && f@ == bot.file_name@
                    && r.args.deep_view() == base.drop_first()
            } else if kind == "java"@ {
                r.command matches StartCommand::Program(p) && p@ == "java"@ && r.args.deep_view()
                    == seq!["-jar"@] + base
            } else if kind == "nodejs"@ {
                r.command matches StartCommand::Program(p) && p@ == "node"@ && r.args.deep_view()
                    == base
            } else {
                r.command matches StartCommand::Program(p) && p@ == kind && r.args.deep_view()
                    == base
            }
        }),
{
    let lower_type = to_ascii_lowercase(bot.bot_type.as_str());
    let kind: u8 = if same_text(lower_type.as_str(), "dotnetcore") {
        0
    } else if same_text(lower_type.as_str(), "binarycpp") {
        1
    } else if same_text(lower_type.as_str(), "java") {
        2
    } else if same_text(lower_type.as_str(), "nodejs") {
        3
    } else {
        4
    };
    let mut args: Vec<String> = Vec::new();
    if kind == 2 {
        args.push(text_of("-jar"));
    }
    if kind != 1 {
        args.push(bot.file_name.clone());
    }
    args.push(text_of("--GamePort"));
    args.push(text_of(port));
    args.push(text_of("--StartPort"));
    args.push(text_of(port));
    args.push(text_of("--LadderServer"));
    args.push(text_of("127.0.0.1"));
    args.push(text_of("--OpponentId"));
    args.push(text_of(opponent_id));
    let ghost base = base_launch_args(bot.file_name@, port@, opponent_id@);
    let command = if kind == 0 {
        assert(args.deep_view() =~= base);
        StartCommand::Program(text_of("dotnet"))
    } else if kind == 1 {
        assert(args.deep_view() =~= base.drop_first());
        StartCommand::BotsDirectoryFile(bot.file_name.clone())
    } else if kind == 2 {
        assert(args.deep_view() =~= seq!["-jar"@] + base);
        StartCommand::Program(text_of("java"))
    } else if kind == 3 {
        assert(args.deep_view() =~= base);
        StartCommand::Program(text_of("node"))
    } else {
        assert(args.deep_view() =~= base);
        StartCommand::Program(lower_type)
    };
    LaunchPlan { command, args }
}

/// A bot's connection report.
#[derive(Clone, Debug, Default)]
pub struct BotConnection {
    pub bot: String,
}

impl BotConnection {
    /// The bot reports itself connected: its report reads `Connected`.
    pub fn is_connected(&self) -> (r: bool)
        ensures
            r == (self.bot@ == "Connected"@),
    {
        same_text(self.bot.as_str(), "Connected")
    }
}

} // verus!
