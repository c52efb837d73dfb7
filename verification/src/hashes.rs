//! The MD5 hashes of the bot archives that were downloaded, by bot name.

use vstd::prelude::*;
use crate::str_map::StrMap;

verus! {

/// The hashes known for one bot.
#[derive(Clone, Debug, Default)]
pub struct BotHash {
    pub bot_zip_md5hash: Option<String>,
    pub bot_data_md5hash: Option<String>,
}

/// The hashes of one bot, as texts.
pub struct BotHashView {
    pub zip: Option<Seq<char>>,
    pub data: Option<Seq<char>>,
}

/// The text inside an optional text.
pub open spec fn opt_text(o: Option<String>) -> Option<Seq<char>> {
    match o {
        Some(s) => Some(s@),
        None => None,
    }
}

impl View for BotHash {
    type V = BotHashView;

    open spec fn view(&self) -> BotHashView {
        BotHashView { zip: opt_text(self.bot_zip_md5hash), data: opt_text(self.bot_data_md5hash) }
    }
}

impl BotHash {
    /// The hash of the bot's archive.
    pub fn get_zip_hash(&self) -> (r: Option<&String>)
        ensures
            match r {
                Some(h) => self.bot_zip_md5hash == Some(*h),
                None => self.bot_zip_md5hash is None,
            },
    {
        match &self.bot_zip_md5hash {
            Some(h) => Some(h),
            None => None,
        }
    }

    /// The hash of the bot's data archive.
    pub fn get_data_hash(&self) -> (r: Option<&String>)
        ensures
            match r {
                Some(h) => self.bot_data_md5hash == Some(*h),
                None => self.bot_data_md5hash is None,
            },
    {
        match &self.bot_data_md5hash {
            Some(h) => Some(h),
            None => None,
        }
    }
}

/// The hashes after the archive hash of `bot` is set to `hash`: a known bot
/// keeps its data hash, an unknown one gets none.
pub open spec fn with_zip_hash(
    m: Map<Seq<char>, BotHashView>,
    bot: Seq<char>,
    hash: Seq<char>,
) -> Map<Seq<char>, BotHashView> {
    m.insert(
        bot,
        BotHashView {
            zip: Some(hash),
            data: if m.contains_key(bot) {
                m[bot].data
            } else {
                None
            },
        },
    )
}

/// The hashes of the downloaded bots, by bot name.
#[derive(Clone, Debug, Default)]
pub struct MD5HashesFile {
    pub bots: StrMap<BotHash>,
}

impl View for MD5HashesFile {
    type V = Map<Seq<char>, BotHashView>;

    open spec fn view(&self) -> Map<Seq<char>, BotHashView> {
        self.bots@.map_values(|h: BotHash| h@)
    }
}

impl MD5HashesFile {
    /// No hashes at all.
    pub fn new() -> (r: Self)
        ensures
            r@ == Map::<Seq<char>, BotHashView>::empty(),
    {
        let r = MD5HashesFile { bots: StrMap::new() };
        assert(r@ =~= Map::<Seq<char>, BotHashView>::empty());
        r
    }

    /// The hashes known for `bot`.
    pub fn get_hash(&self, bot: &str) -> (r: Option<&BotHash>)
        ensures
            match r {
                Some(h) => self@.contains_key(bot@) && self@[bot@] == h@ && self.bots@[bot@] == *h,
                None => !self@.contains_key(bot@),
            },
    {
        self.bots.get(bot)
    }

    /// A mutable handle on the hashes known for `bot`; what is written
    /// through it becomes the hashes of `bot`.
    pub fn get_hash_mut(&mut self, bot: &str) -> (r: Option<&mut BotHash>)
        ensures
            match r {
                Some(h) => {
                    &&& old(self)@.contains_key(bot@)
                    &&& old(self).bots@[bot@] == *h
                    &&& final(self).bots@ == old(self).bots@.insert(bot@, *final(h))
                },
                None => !old(self)@.contains_key(bot@) && *final(self) == *old(self),
            },
    {
        self.bots.get_mut(bot)
    }

    /// Records `hash` as the archive hash of `bot`.
    pub fn update_zip_hash(&mut self, bot: &str, hash: &str)
        ensures
            final(self)@ == with_zip_hash(old(self)@, bot@, hash@),
    {
        let ghost before = self@;
        match self.get_hash_mut(bot) {
            None => {
                let empty_hash = BotHash {
                    bot_zip_md5hash: Some(String::from_str(hash)),
                    bot_data_md5hash: None,
                };
                self.bots.insert(String::from_str(bot), empty_hash);
                assert(self@ =~= with_zip_hash(before, bot@, hash@));
            },
            Some(x) => {
                x.bot_zip_md5hash = Some(String::from_str(hash));
            },
        }
        assert(self@ =~= with_zip_hash(before, bot@, hash@));
    }
}

/// Law: after recording an archive hash, reading the hashes of that bot gives
/// the recorded archive hash, its data hash is unchanged, and every other
/// bot's hashes are unchanged.
pub proof fn law_read_after_update_zip_hash(
    before: Map<Seq<char>, BotHashView>,
    bot: Seq<char>,
    hash: Seq<char>,
    other: Seq<char>,
)
    ensures
        with_zip_hash(before, bot, hash).contains_key(bot),
        with_zip_hash(before, bot, hash)[bot].zip == Some(hash),
        before.contains_key(bot) ==> with_zip_hash(before, bot, hash)[bot].data
            == before[bot].data,
        other != bot ==> (with_zip_hash(before, bot, hash).contains_key(other)
            == before.contains_key(other)),
        other != bot && before.contains_key(other) ==> with_zip_hash(before, bot, hash)[other]
            == before[other],
{
}

} // verus!
