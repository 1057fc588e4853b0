//! Domain types that map onto the library schema.
//!
//! Instants are unix-epoch seconds (UTC), the unit the store keeps them in.
//! Sentinel TEXT and INTEGER columns become enums here.

use vstd::prelude::*;

use crate::errors::Error;
use crate::text::text_eq;

verus! {

/// A subscribed podcast.
#[derive(Debug, Clone, PartialEq, Eq)]
pub struct Show {
    pub id: i64,
    pub slug: String,
    pub feed_url: String,
    pub title: String,
    pub author: Option<String>,
    pub description: Option<String>,
    pub homepage_url: Option<String>,
    pub cover_path: Option<String>,
    pub accent_rgb: Option<u32>,
    pub apple_podcasts_id: Option<String>,
    /// Last successful fetch, unix seconds.
    pub last_fetched: Option<i64>,
    pub last_modified: Option<String>,
    pub etag: Option<String>,
    pub fetch_interval: u32,
    pub auth_user: Option<String>,
    pub auth_pass_ref: Option<String>,
    pub auto_download: bool,
    pub keep_count: u32,
    pub priority: i32,
    pub folder_path: String,
}

/// Kind of an episode as declared by the feed.
#[derive(Debug, Clone, Copy, PartialEq, Eq, Structural)]
pub enum EpisodeType {
    Full,
    Trailer,
    Bonus,
}

impl EpisodeType {
    /// The word stored in the `episode_type` column.
    pub open spec fn name(self) -> Seq<char> {
        match self {
            EpisodeType::Full => "full"@,
            EpisodeType::Trailer => "trailer"@,
            EpisodeType::Bonus => "bonus"@,
        }
    }

    /// The variant whose `name` is `s`, if any.
    pub open spec fn from_name(s: Seq<char>) -> Option<EpisodeType> {
        if s == "full"@ {
            Some(EpisodeType::Full)
        } else if s == "trailer"@ {
            Some(EpisodeType::Trailer)
        } else if s == "bonus"@ {
            Some(EpisodeType::Bonus)
        } else {
            None
        }
    }

    pub fn as_str(&self) -> (r: &'static str)
        ensures
            r@ == self.name(),
    {
        match self {
            EpisodeType::Full => "full",
            EpisodeType::Trailer => "trailer",
            EpisodeType::Bonus => "bonus",
        }
    }

    /// Reads a stored `episode_type` word.
    pub fn try_from_str(s: &str) -> (r: Result<EpisodeType, Error>)
        ensures
            match r {
                Ok(t) => EpisodeType::from_name(s@) == Some(t),
                Err(Error::InvalidEnum { field, value }) => {
                    &&& EpisodeType::from_name(s@) is None
                    &&& field@ == "episode_type"@
                    &&& value@ == s@
                },
                Err(_) => false,
            },
    {
        if text_eq(s, "full") {
            Ok(EpisodeType::Full)
        } else if text_eq(s, "trailer") {
            Ok(EpisodeType::Trailer)
        } else if text_eq(s, "bonus") {
            Ok(EpisodeType::Bonus)
        } else {
            Err(Error::InvalidEnum { field: "episode_type", value: s.to_owned() })
        }
    }
}

impl std::str::FromStr for EpisodeType {
    type Err = Error;

    fn from_str(s: &str) -> (r: Result<EpisodeType, Error>)
        ensures
            match r {
                Ok(t) => EpisodeType::from_name(s@) == Some(t),
                Err(Error::InvalidEnum { field, value }) => {
                    &&& EpisodeType::from_name(s@) is None
                    &&& field@ == "episode_type"@
                    &&& value@ == s@
                },
                Err(_) => false,
            },
    {
        EpisodeType::try_from_str(s)
    }
}

/// One episode of a show.
#[derive(Debug, Clone, PartialEq, Eq)]
pub struct Episode {
    pub id: i64,
    pub show_id: i64,
    pub guid: String,
    pub title: String,
    pub description: Option<String>,
    /// Publication instant, unix seconds.
    pub pub_date: Option<i64>,
    pub duration: Option<u32>,
    pub file_size: Option<u64>,
    pub audio_url: Option<String>,
    pub audio_path: Option<String>,
    pub folder_path: String,
    pub mime_type: Option<String>,
    pub season: Option<u32>,
    pub episode_number: Option<u32>,
    pub episode_type: Option<EpisodeType>,
}

/// Listening state of an episode, stored as the integers 0 to 3.
#[derive(Debug, Clone, Copy, PartialEq, Eq, Structural)]
pub enum PlayedState {
    Unplayed,
    InProgress,
    PlayedFully,
    ArchivedUnlistened,
}

impl PlayedState {
    /// The integer stored in the `played` column.
    pub open spec fn code(self) -> i64 {
        match self {
            PlayedState::Unplayed => 0,
            PlayedState::InProgress => 1,
            PlayedState::PlayedFully => 2,
            PlayedState::ArchivedUnlistened => 3,
        }
    }

    pub fn as_i64(&self) -> (r: i64)
        ensures
            r == self.code(),
    {
        match self {
            PlayedState::Unplayed => 0,
            PlayedState::InProgress => 1,
            PlayedState::PlayedFully => 2,
            PlayedState::ArchivedUnlistened => 3,
        }
    }

    /// The state stored as `value`; `None` outside `0..=3`.
    pub fn from_i64(value: i64) -> (r: Option<PlayedState>)
        ensures
            match r {
                Some(s) => s.code() == value,
                None => value < 0 || value > 3,
            },
    {
        match value {
            0 => Some(PlayedState::Unplayed),
            1 => Some(PlayedState::InProgress),
            2 => Some(PlayedState::PlayedFully),
            3 => Some(PlayedState::ArchivedUnlistened),
            _ => None,
        }
    }
}

/// What happens to new episodes of a show.
#[derive(Debug, Clone, Copy, PartialEq, Eq, Structural)]
pub enum InboxPolicy {
    Inbox,
    AlwaysQueue,
    AlwaysArchive,
}

impl InboxPolicy {
    /// The word stored in the `inbox_policy` column.
    pub open spec fn name(self) -> Seq<char> {
        match self {
            InboxPolicy::Inbox => "inbox"@,
            InboxPolicy::AlwaysQueue => "always_queue"@,
            InboxPolicy::AlwaysArchive => "always_archive"@,
        }
    }

    /// The variant whose `name` is `s`, if any.
    pub open spec fn from_name(s: Seq<char>) -> Option<InboxPolicy> {
        if s == "inbox"@ {
            Some(InboxPolicy::Inbox)
        } else if s == "always_queue"@ {
            Some(InboxPolicy::AlwaysQueue)
        } else if s == "always_archive"@ {
            Some(InboxPolicy::AlwaysArchive)
        } else {
            None
        }
    }

    pub fn as_str(&self) -> (r: &'static str)
        ensures
            r@ == self.name(),
    {
        match self {
            InboxPolicy::Inbox => "inbox",
            InboxPolicy::AlwaysQueue => "always_queue",
            InboxPolicy::AlwaysArchive => "always_archive",
        }
    }

    /// Reads a stored `inbox_policy` word.
    pub fn try_from_str(s: &str) -> (r: Result<InboxPolicy, Error>)
        ensures
            match r {
                Ok(p) => InboxPolicy::from_name(s@) == Some(p),
                Err(Error::InvalidEnum { field, value }) => {
                    &&& InboxPolicy::from_name(s@) is None
                    &&& field@ == "inbox_policy"@
                    &&& value@ == s@
                },
                Err(_) => false,
            },
    {
        if text_eq(s, "inbox") {
            Ok(InboxPolicy::Inbox)
        } else if text_eq(s, "always_queue") {
            Ok(InboxPolicy::AlwaysQueue)
        } else if text_eq(s, "always_archive") {
            Ok(InboxPolicy::AlwaysArchive)
        } else {
            Err(Error::InvalidEnum { field: "inbox_policy", value: s.to_owned() })
        }
    }
}

impl Default for InboxPolicy {
    fn default() -> (r: InboxPolicy)
        ensures
            r == InboxPolicy::Inbox,
    {
        InboxPolicy::Inbox
    }
}

impl std::str::FromStr for InboxPolicy {
    type Err = Error;

    fn from_str(s: &str) -> (r: Result<InboxPolicy, Error>)
        ensures
            match r {
                Ok(p) => InboxPolicy::from_name(s@) == Some(p),
                Err(Error::InvalidEnum { field, value }) => {
                    &&& InboxPolicy::from_name(s@) is None
                    &&& field@ == "inbox_policy"@
                    &&& value@ == s@
                },
                Err(_) => false,
            },
    {
        InboxPolicy::try_from_str(s)
    }
}

/// A user-defined label attached to shows.
#[derive(Debug, Clone, PartialEq, Eq)]
pub struct Tag {
    pub id: i64,
    pub name: String,
}

/// Reading back a stored `episode_type` word gives the variant that was
/// stored.
pub proof fn lemma_episode_type_name_round_trip(t: EpisodeType)
    ensures
        EpisodeType::from_name(t.name()) == Some(t),
{
    reveal_strlit("full");
    reveal_strlit("trailer");
    reveal_strlit("bonus");
    assert("full"@.len() == 4 && "trailer"@.len() == 7 && "bonus"@.len() == 5);
    assert("full"@[0] != "bonus"@[0]);
}

/// Reading back a stored `inbox_policy` word gives the variant that was
/// stored.
pub proof fn lemma_inbox_policy_name_round_trip(p: InboxPolicy)
    ensures
        InboxPolicy::from_name(p.name()) == Some(p),
{
    reveal_strlit("inbox");
    reveal_strlit("always_queue");
    reveal_strlit("always_archive");
    assert("inbox"@.len() == 5 && "always_queue"@.len() == 12 && "always_archive"@.len() == 14);
}

/// Reading back a stored `played` integer gives the state that was stored,
/// and only the integers 0 to 3 name a state.
pub proof fn lemma_played_state_code_round_trip(s: PlayedState, v: i64)
    ensures
        0 <= s.code() <= 3,
        (0 <= v <= 3) ==> exists|t: PlayedState| t.code() == v,
        s.code() == v ==> (v == 0 ==> s == PlayedState::Unplayed) && (v == 1 ==> s
            == PlayedState::InProgress) && (v == 2 ==> s == PlayedState::PlayedFully) && (v == 3
            ==> s == PlayedState::ArchivedUnlistened),
{
    if v == 0 {
        assert(PlayedState::Unplayed.code() == v);
    } else if v == 1 {
        assert(PlayedState::InProgress.code() == v);
    } else if v == 2 {
        assert(PlayedState::PlayedFully.code() == v);
    } else if v == 3 {
        assert(PlayedState::ArchivedUnlistened.code() == v);
    }
}

} // verus!
