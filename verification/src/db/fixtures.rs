//! Synthetic libraries for stress testing, at one of four scales: Small (100
//! episodes across 10 shows), Medium (1,000 across 50), Large (10,000 across
//! 100) and Stress (50,000 across 100).
//!
//! `FixturePlan` decides what to insert next; the caller performs each
//! insert through the writer and reports the id it got back.

use vstd::prelude::*;

use crate::db::domain::{Episode, EpisodeType, Show};
use crate::errors::Error;
use crate::text::{
    decimal, lemma_decimal_injective, opt_chars, push_decimal, push_zero_padded, text_eq,
    zero_padded,
};
use crate::timestamps::{format_utc_date, representable, utc_date_label};

verus! {

/// Size of a synthetic library.
#[derive(Debug, Clone, Copy, PartialEq, Eq, Structural)]
pub enum FixtureScale {
    /// 100 episodes across 10 shows.
    Small,
    /// 1,000 episodes across 50 shows.
    Medium,
    /// 10,000 episodes across 100 shows.
    Large,
    /// 50,000 episodes across 100 shows.
    Stress,
}

impl FixtureScale {
    pub open spec fn show_count(self) -> nat {
        match self {
            FixtureScale::Small => 10,
            FixtureScale::Medium => 50,
            FixtureScale::Large => 100,
            FixtureScale::Stress => 100,
        }
    }

    pub open spec fn episode_count(self) -> nat {
        match self {
            FixtureScale::Small => 10,
            FixtureScale::Medium => 20,
            FixtureScale::Large => 100,
            FixtureScale::Stress => 500,
        }
    }

    /// Number of shows.
    pub fn shows(&self) -> (r: usize)
        ensures
            r == self.show_count(),
    {
        match self {
            FixtureScale::Small => 10,
            FixtureScale::Medium => 50,
            FixtureScale::Large => 100,
            FixtureScale::Stress => 100,
        }
    }

    /// Number of episodes of each show.
    pub fn episodes_per_show(&self) -> (r: usize)
        ensures
            r == self.episode_count(),
    {
        match self {
            FixtureScale::Small => 10,
            FixtureScale::Medium => 20,
            FixtureScale::Large => 100,
            FixtureScale::Stress => 500,
        }
    }

    /// The scale named `s`, if any.
    pub open spec fn from_name(s: Seq<char>) -> Option<FixtureScale> {
        if s == "small"@ {
            Some(FixtureScale::Small)
        } else if s == "medium"@ {
            Some(FixtureScale::Medium)
        } else if s == "large"@ {
            Some(FixtureScale::Large)
        } else if s == "stress"@ {
            Some(FixtureScale::Stress)
        } else {
            None
        }
    }

    /// Reads a scale name as given on the command line.
    pub fn try_from_str(s: &str) -> (r: Result<FixtureScale, Error>)
        ensures
            match r {
                Ok(k) => FixtureScale::from_name(s@) == Some(k),
                Err(Error::InvalidEnum { field, value }) => {
                    &&& FixtureScale::from_name(s@) is None
                    &&& field@ == "fixture_scale"@
                    &&& value@ == s@
                },
                Err(_) => false,
            },
    {
        if text_eq(s, "small") {
            Ok(FixtureScale::Small)
        } else if text_eq(s, "medium") {
            Ok(FixtureScale::Medium)
        } else if text_eq(s, "large") {
            Ok(FixtureScale::Large)
        } else if text_eq(s, "stress") {
            Ok(FixtureScale::Stress)
        } else {
            Err(Error::InvalidEnum { field: "fixture_scale", value: s.to_owned() })
        }
    }
}

impl std::str::FromStr for FixtureScale {
    type Err = Error;

    fn from_str(s: &str) -> (r: Result<FixtureScale, Error>)
        ensures
            match r {
                Ok(k) => FixtureScale::from_name(s@) == Some(k),
                Err(Error::InvalidEnum { field, value }) => {
                    &&& FixtureScale::from_name(s@) is None
                    &&& field@ == "fixture_scale"@
                    &&& value@ == s@
                },
                Err(_) => false,
            },
    {
        FixtureScale::try_from_str(s)
    }
}

/// `n` zero-padded to four digits.
pub open spec fn pad4(n: nat) -> Seq<char> {
    zero_padded(n, 4)
}

/// `s` is the synthetic show number `i`, fetched at `now`.
pub open spec fn is_fixture_show(s: Show, i: nat, now: i64) -> bool {
    &&& s.id == 0
    &&& s.slug@ == "show-"@ + pad4(i)
    &&& s.feed_url@ == "https://example.com/show-"@ + pad4(i) + ".rss"@
    &&& s.title@ == "Show "@ + decimal(i)
    &&& opt_chars(s.author) == Some("Author "@ + decimal(i % 20))
    &&& opt_chars(s.description) == Some(
        "Synthesized show "@ + decimal(i) + " for stress testing."@,
    )
    &&& s.homepage_url is None
    &&& s.cover_path is None
    &&& s.accent_rgb is None
    &&& s.apple_podcasts_id is None
    &&& s.last_fetched == Some(now)
    &&& s.last_modified is None
    &&& s.etag is None
    &&& s.fetch_interval == 3600
    &&& s.auth_user is None
    &&& s.auth_pass_ref is None
    &&& s.auto_download
    &&& s.keep_count == 0
    &&& s.priority == (i % 10) as i32
    &&& s.folder_path@ == "shows/show-"@ + pad4(i)
}

/// The publication instant of synthetic episode `j`: `j` days before `now`.
pub open spec fn fixture_pub_date(now: i64, j: nat) -> int {
    now - j * 86400
}

/// `e` is synthetic episode `j` of show `i`, whose row id is `show_id`.
pub open spec fn is_fixture_episode(e: Episode, i: nat, j: nat, show_id: i64, now: i64) -> bool {
    &&& e.id == 0
    &&& e.show_id == show_id
    &&& e.guid@ == "show-"@ + pad4(i) + "-ep-"@ + pad4(j)
    &&& e.title@ == "Show "@ + decimal(i) + " Episode "@ + decimal(j)
    &&& opt_chars(e.description) == Some(
        "Synthesized episode "@ + decimal(j) + " of show "@ + decimal(i) + "."@,
    )
    &&& e.pub_date == Some(fixture_pub_date(now, j) as i64)
    &&& e.duration == Some((1800 + j % 3600) as u32)
    &&& e.file_size == Some((50_000_000 + j * 100_000) as u64)
    &&& opt_chars(e.audio_url) == Some(
        "https://example.com/show-"@ + pad4(i) + "/ep-"@ + pad4(j) + ".mp3"@,
    )
    &&& e.audio_path is None
    &&& e.folder_path@ == "shows/show-"@ + pad4(i) + "/"@ + utc_date_label(
        fixture_pub_date(now, j),
    ) + "-ep-"@ + pad4(j)
    &&& opt_chars(e.mime_type) == Some("audio/mpeg"@)
    &&& e.season is None
    &&& e.episode_number == Some(j as u32)
    &&& e.episode_type == Some(EpisodeType::Full)
}

/// The synthetic show number `show_idx`.
pub fn fixture_show(show_idx: usize, now: i64) -> (s: Show)
    ensures
        is_fixture_show(s, show_idx as nat, now),
{
    let i = show_idx as u64;
    let mut slug = String::new();
    slug.append("show-");
    push_zero_padded(&mut slug, i, 4);
    let mut feed_url = String::new();
    feed_url.append("https://example.com/show-");
    push_zero_padded(&mut feed_url, i, 4);
    feed_url.append(".rss");
    let mut title = String::new();
    title.append("Show ");
    push_decimal(&mut title, i);
    let mut author = String::new();
    author.append("Author ");
    push_decimal(&mut author, i % 20);
    let mut description = String::new();
    description.append("Synthesized show ");
    push_decimal(&mut description, i);
    description.append(" for stress testing.");
    let mut folder_path = String::new();
    folder_path.append("shows/show-");
    push_zero_padded(&mut folder_path, i, 4);
    Show {
        id: 0,
        slug,
        feed_url,
        title,
        author: Some(author),
        description: Some(description),
        homepage_url: None,
        cover_path: None,
        accent_rgb: None,
        apple_podcasts_id: None,
        last_fetched: Some(now),
        last_modified: None,
        etag: None,
        fetch_interval: 3600,
        auth_user: None,
        auth_pass_ref: None,
        auto_download: true,
        keep_count: 0,
        priority: (show_idx % 10) as i32,
        folder_path,
    }
}

/// Synthetic episode `ep_idx` of show `show_idx`, published `ep_idx` days
/// before `now`.
pub fn fixture_episode(show_idx: usize, ep_idx: usize, show_id: i64, now: i64) -> (e: Episode)
    requires
        ep_idx < 1_000_000_000,
        representable(now as int),
        representable(fixture_pub_date(now, ep_idx as nat)),
    ensures
        is_fixture_episode(e, show_idx as nat, ep_idx as nat, show_id, now),
{
    let i = show_idx as u64;
    let j = ep_idx as u64;
    let pub_date = now - (ep_idx as i64) * 86400;
    let mut guid = String::new();
    guid.append("show-");
    push_zero_padded(&mut guid, i, 4);
    guid.append("-ep-");
    push_zero_padded(&mut guid, j, 4);
    let mut title = String::new();
    title.append("Show ");
    push_decimal(&mut title, i);
    title.append(" Episode ");
    push_decimal(&mut title, j);
    let mut description = String::new();
    description.append("Synthesized episode ");
    push_decimal(&mut description, j);
    description.append(" of show ");
    push_decimal(&mut description, i);
    description.append(".");
    let mut audio_url = String::new();
    audio_url.append("https://example.com/show-");
    push_zero_padded(&mut audio_url, i, 4);
    audio_url.append("/ep-");
    push_zero_padded(&mut audio_url, j, 4);
    audio_url.append(".mp3");
    let date = format_utc_date(pub_date);
    let mut folder_path = String::new();
    folder_path.append("shows/show-");
    push_zero_padded(&mut folder_path, i, 4);
    folder_path.append("/");
    folder_path.append(date.as_str());
    folder_path.append("-ep-");
    push_zero_padded(&mut folder_path, j, 4);
    Episode {
        id: 0,
        show_id,
        guid,
        title,
        description: Some(description),
        pub_date: Some(pub_date),
        duration: Some(1800 + (ep_idx as u32 % 3600)),
        file_size: Some(50_000_000 + (ep_idx as u64) * 100_000),
        audio_url: Some(audio_url),
        audio_path: None,
        folder_path,
        mime_type: Some("audio/mpeg".to_owned()),
        season: None,
        episode_number: Some(ep_idx as u32),
        episode_type: Some(EpisodeType::Full),
    }
}

/// One insert the synthesis asks for.
#[derive(Debug, Clone, PartialEq, Eq)]
pub enum FixtureStep {
    InsertShow(Show),
    InsertEpisode(Episode),
}

/// Where the synthesis of a library stands: which show is next, and, once
/// that show is inserted, its row id and which of its episodes is next.
#[derive(Debug, Clone, Copy, PartialEq, Eq)]
pub struct FixturePlan {
    scale: FixtureScale,
    now: i64,
    show_idx: usize,
    ep_idx: usize,
    show_id: Option<i64>,
}

impl FixturePlan {
    pub closed spec fn scale(self) -> FixtureScale {
        self.scale
    }

    /// The instant the library is synthesized at.
    pub closed spec fn now(self) -> i64 {
        self.now
    }

    /// Index of the show being worked on.
    pub closed spec fn show_index(self) -> nat {
        self.show_idx as nat
    }

    /// Index of the next episode of that show.
    pub closed spec fn episode_index(self) -> nat {
        self.ep_idx as nat
    }

    /// Row id of that show, once it is inserted.
    pub closed spec fn current_show_id(self) -> Option<i64> {
        self.show_id
    }

    /// The plan is consistent.
    pub closed spec fn wf(self) -> bool {
        &&& representable(self.now as int)
        &&& representable(fixture_pub_date(self.now, (self.scale.episode_count() - 1) as nat))
        &&& self.show_idx <= self.scale.show_count()
        &&& self.ep_idx < self.scale.episode_count()
        &&& self.show_id is None ==> self.ep_idx == 0
        &&& self.show_idx == self.scale.show_count() ==> self.show_id is None
    }

    /// Shows inserted so far.
    pub open spec fn shows_inserted(self) -> nat {
        self.show_index() + if self.current_show_id() is Some {
            1nat
        } else {
            0nat
        }
    }

    /// Episodes inserted so far.
    pub open spec fn episodes_inserted(self) -> nat {
        self.show_index() * self.scale().episode_count() + self.episode_index()
    }

    /// Inserts still to come.
    pub open spec fn remaining(self) -> int {
        self.scale().show_count() + self.scale().show_count() * self.scale().episode_count()
            - self.shows_inserted() - self.episodes_inserted()
    }

    /// A plan for a library at `scale`, synthesized at `now`.
    pub fn new(scale: FixtureScale, now: i64) -> (p: FixturePlan)
        requires
            representable(now as int),
            representable(fixture_pub_date(now, (scale.episode_count() - 1) as nat)),
        ensures
            p.wf(),
            p.scale() == scale,
            p.now() == now,
            p.shows_inserted() == 0,
            p.episodes_inserted() == 0,
            p.current_show_id() is None,
    {
        let p = FixturePlan { scale, now, show_idx: 0, ep_idx: 0, show_id: None };
        assert(0 * scale.episode_count() == 0) by (nonlinear_arith);
        p
    }

    /// The insert to perform next, or `None` when the library is complete.
    pub fn next_action(&self) -> (r: Option<FixtureStep>)
        requires
            self.wf(),
        ensures
            r is None <==> self.show_index() == self.scale().show_count(),
            r is Some ==> self.show_index() < self.scale().show_count(),
            match r {
                Some(FixtureStep::InsertShow(s)) => {
                    &&& self.current_show_id() is None
                    &&& is_fixture_show(s, self.show_index(), self.now())
                },
                Some(FixtureStep::InsertEpisode(e)) => {
                    &&& self.current_show_id() is Some
                    &&& is_fixture_episode(
                        e,
                        self.show_index(),
                        self.episode_index(),
                        self.current_show_id()->0,
                        self.now(),
                    )
                },
                None => true,
            },
    {
        if self.show_idx >= self.scale.shows() {
            return None;
        }
        match self.show_id {
            None => Some(FixtureStep::InsertShow(fixture_show(self.show_idx, self.now))),
            Some(id) => {
                assert(representable(fixture_pub_date(self.now, self.ep_idx as nat))) by {
                    assert(self.ep_idx <= self.scale.episode_count() - 1);
                }
                Some(
                    FixtureStep::InsertEpisode(
                        fixture_episode(self.show_idx, self.ep_idx, id, self.now),
                    ),
                )
            },
        }
    }

    /// Records that the insert `next_action` asked for succeeded, with the
    /// row id `inserted_id`.
    pub fn complete(&mut self, inserted_id: i64)
        requires
            old(self).wf(),
            old(self).show_index() < old(self).scale().show_count(),
        ensures
            final(self).wf(),
            final(self).scale() == old(self).scale(),
            final(self).now() == old(self).now(),
            final(self).remaining() == old(self).remaining() - 1,
            old(self).current_show_id() is None ==> {
                &&& final(self).current_show_id() == Some(inserted_id)
                &&& final(self).show_index() == old(self).show_index()
                &&& final(self).episode_index() == 0
                &&& final(self).shows_inserted() == old(self).shows_inserted() + 1
                &&& final(self).episodes_inserted() == old(self).episodes_inserted()
            },
            old(self).current_show_id() is Some ==> {
                &&& final(self).shows_inserted() == old(self).shows_inserted()
                &&& final(self).episodes_inserted() == old(self).episodes_inserted() + 1
                &&& old(self).episode_index() + 1 < old(self).scale().episode_count() ==> {
                    &&& final(self).current_show_id() == old(self).current_show_id()
                    &&& final(self).show_index() == old(self).show_index()
                    &&& final(self).episode_index() == old(self).episode_index() + 1
                }
                &&& old(self).episode_index() + 1 == old(self).scale().episode_count() ==> {
                    &&& final(self).current_show_id() is None
                    &&& final(self).show_index() == old(self).show_index() + 1
                    &&& final(self).episode_index() == 0
                }
            },
    {
        match self.show_id {
            None => {
                self.show_id = Some(inserted_id);
                self.ep_idx = 0;
            },
            Some(_) => {
                if self.ep_idx + 1 < self.scale.episodes_per_show() {
                    self.ep_idx = self.ep_idx + 1;
                } else {
                    proof {
                        let e = self.scale.episode_count();
                        let i = self.show_idx as int;
                        assert((i + 1) * e == i * e + e) by (nonlinear_arith);
                    }
                    self.show_idx = self.show_idx + 1;
                    self.ep_idx = 0;
                    self.show_id = None;
                }
            },
        }
    }
}

/// A finished plan has inserted every show of the scale and every episode
/// of each.
pub proof fn lemma_finished_plan_counts(p: FixturePlan)
    requires
        p.wf(),
        p.show_index() == p.scale().show_count(),
    ensures
        p.shows_inserted() == p.scale().show_count(),
        p.episodes_inserted() == p.scale().show_count() * p.scale().episode_count(),
        p.remaining() == 0,
{
}

/// A fresh plan asks for one insert per show and one per episode: the
/// remaining count drops by one per completed insert and is zero exactly
/// when the plan is finished.
pub proof fn lemma_plan_length(p: FixturePlan)
    requires
        p.wf(),
    ensures
        p.remaining() >= 0,
        p.remaining() == 0 <==> p.show_index() == p.scale().show_count(),
{
    let s = p.scale().show_count();
    let e = p.scale().episode_count();
    let i = p.show_index();
    let j = p.episode_index();
    assert(i * e <= s * e) by (nonlinear_arith)
        requires
            i <= s,
    ;
    if i < s {
        assert((i + 1) * e <= s * e) by (nonlinear_arith)
            requires
                i + 1 <= s,
        ;
        assert((i + 1) * e == i * e + e) by (nonlinear_arith);
    }
}

/// Synthetic shows cycle through twenty authors: two synthetic shows have the
/// same author exactly when their numbers agree modulo 20.
pub proof fn lemma_fixture_authors_cycle(s1: Show, s2: Show, i: nat, j: nat, now: i64)
    requires
        is_fixture_show(s1, i, now),
        is_fixture_show(s2, j, now),
    ensures
        opt_chars(s1.author) == opt_chars(s2.author) <==> i % 20 == j % 20,
{
    let a = "Author "@ + decimal(i % 20);
    let b = "Author "@ + decimal(j % 20);
    if a == b {
        assert(a.skip(7) =~= decimal(i % 20)) by {
            reveal_strlit("Author ");
        }
        assert(b.skip(7) =~= decimal(j % 20)) by {
            reveal_strlit("Author ");
        }
        lemma_decimal_injective(i % 20, j % 20);
    }
}

} // verus!
