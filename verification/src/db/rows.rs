//! Column encoding and decoding for the SQLite store.
//!
//! The statements themselves run in the application; here is what goes into
//! them (bind parameters, in statement order) and what is made of the
//! columns they read back.

use vstd::prelude::*;

use crate::db::domain::{Episode, EpisodeType, InboxPolicy, PlayedState, Show};
use crate::text::opt_chars;
use crate::timestamps::{instant_from_column, instant_or_epoch, representable, stored_instant};

verus! {

/// A bind parameter, as SQLite stores it.
#[derive(Debug, Clone, PartialEq, Eq)]
pub enum SqlValue {
    Null,
    Integer(i64),
    Text(String),
}

/// The mathematical value of a `SqlValue`.
pub enum SqlValueView {
    Null,
    Integer(int),
    Text(Seq<char>),
}

impl View for SqlValue {
    type V = SqlValueView;

    open spec fn view(&self) -> SqlValueView {
        match self {
            SqlValue::Null => SqlValueView::Null,
            SqlValue::Integer(i) => SqlValueView::Integer(*i as int),
            SqlValue::Text(s) => SqlValueView::Text(s@),
        }
    }
}

/// The views of a parameter list.
pub open spec fn params_view(p: Seq<SqlValue>) -> Seq<SqlValueView> {
    p.map_values(|v: SqlValue| v@)
}

/// A text column.
pub open spec fn text(s: String) -> SqlValueView {
    SqlValueView::Text(s@)
}

/// A nullable text column.
pub open spec fn opt_text(s: Option<String>) -> SqlValueView {
    match s {
        Some(t) => SqlValueView::Text(t@),
        None => SqlValueView::Null,
    }
}

/// A nullable integer column.
pub open spec fn opt_int(v: Option<int>) -> SqlValueView {
    match v {
        Some(i) => SqlValueView::Integer(i),
        None => SqlValueView::Null,
    }
}

/// A boolean column: SQLite keeps 1 and 0.
pub open spec fn flag(b: bool) -> SqlValueView {
    SqlValueView::Integer(if b { 1 } else { 0 })
}

fn text_value(s: &String) -> (r: SqlValue)
    ensures
        r@ == text(*s),
{
    SqlValue::Text(s.clone())
}

fn opt_text_value(s: &Option<String>) -> (r: SqlValue)
    ensures
        r@ == opt_text(*s),
{
    match s {
        Some(t) => SqlValue::Text(t.clone()),
        None => SqlValue::Null,
    }
}

fn opt_int_value(v: Option<i64>) -> (r: SqlValue)
    ensures
        r@ == opt_int(
            match v {
                Some(i) => Some(i as int),
                None => None,
            },
        ),
{
    match v {
        Some(i) => SqlValue::Integer(i),
        None => SqlValue::Null,
    }
}

fn flag_value(b: bool) -> (r: SqlValue)
    ensures
        r@ == flag(b),
{
    SqlValue::Integer(if b { 1 } else { 0 })
}

/// Parameters `?1`..`?19` of the show insert and update statements.
pub open spec fn show_columns(s: Show) -> Seq<SqlValueView> {
    seq![
        text(s.slug),
        text(s.feed_url),
        text(s.title),
        opt_text(s.author),
        opt_text(s.description),
        opt_text(s.homepage_url),
        opt_text(s.cover_path),
        opt_int(match s.accent_rgb { Some(v) => Some(v as int), None => None }),
        opt_text(s.apple_podcasts_id),
        opt_int(match s.last_fetched { Some(v) => Some(v as int), None => None }),
        opt_text(s.last_modified),
        opt_text(s.etag),
        SqlValueView::Integer(s.fetch_interval as int),
        opt_text(s.auth_user),
        opt_text(s.auth_pass_ref),
        flag(s.auto_download),
        SqlValueView::Integer(s.keep_count as int),
        SqlValueView::Integer(s.priority as int),
        text(s.folder_path),
    ]
}

/// Bind parameters of the show insert statement.
pub fn show_params(show: &Show) -> (r: Vec<SqlValue>)
    ensures
        params_view(r@) == show_columns(*show),
{
    let mut p: Vec<SqlValue> = Vec::new();
    p.push(text_value(&show.slug));
    p.push(text_value(&show.feed_url));
    p.push(text_value(&show.title));
    p.push(opt_text_value(&show.author));
    p.push(opt_text_value(&show.description));
    p.push(opt_text_value(&show.homepage_url));
    p.push(opt_text_value(&show.cover_path));
    p.push(
        match show.accent_rgb {
            Some(v) => SqlValue::Integer(v as i64),
            None => SqlValue::Null,
        },
    );
    p.push(opt_text_value(&show.apple_podcasts_id));
    p.push(opt_int_value(show.last_fetched));
    p.push(opt_text_value(&show.last_modified));
    p.push(opt_text_value(&show.etag));
    p.push(SqlValue::Integer(show.fetch_interval as i64));
    p.push(opt_text_value(&show.auth_user));
    p.push(opt_text_value(&show.auth_pass_ref));
    p.push(flag_value(show.auto_download));
    p.push(SqlValue::Integer(show.keep_count as i64));
    p.push(SqlValue::Integer(show.priority as i64));
    p.push(text_value(&show.folder_path));
    assert(params_view(p@) =~= show_columns(*show));
    p
}

/// Bind parameters of the show update statement: the insert's, then the id.
pub fn show_update_params(show: &Show) -> (r: Vec<SqlValue>)
    ensures
        params_view(r@) == show_columns(*show).push(SqlValueView::Integer(show.id as int)),
{
    let mut p = show_params(show);
    let ghost before = p@;
    p.push(SqlValue::Integer(show.id));
    assert(params_view(p@) =~= params_view(before).push(SqlValueView::Integer(show.id as int)));
    p
}

/// The `episode_type` column of an episode.
pub open spec fn episode_type_column(t: Option<EpisodeType>) -> SqlValueView {
    match t {
        Some(k) => SqlValueView::Text(k.name()),
        None => SqlValueView::Null,
    }
}

/// Parameters `?1`..`?14` of the episode insert and update statements.
pub open spec fn episode_columns(e: Episode) -> Seq<SqlValueView> {
    seq![
        SqlValueView::Integer(e.show_id as int),
        text(e.guid),
        text(e.title),
        opt_text(e.description),
        opt_int(match e.pub_date { Some(v) => Some(v as int), None => None }),
        opt_int(match e.duration { Some(v) => Some(v as int), None => None }),
        opt_int(match e.file_size { Some(v) => Some(v as i64 as int), None => None }),
        opt_text(e.audio_url),
        opt_text(e.audio_path),
        text(e.folder_path),
        opt_text(e.mime_type),
        opt_int(match e.season { Some(v) => Some(v as int), None => None }),
        opt_int(match e.episode_number { Some(v) => Some(v as int), None => None }),
        episode_type_column(e.episode_type),
    ]
}

/// Bind parameters of the episode insert statement. A file size above
/// `i64::MAX` wraps, as the `as i64` cast does.
pub fn episode_params(episode: &Episode) -> (r: Vec<SqlValue>)
    ensures
        params_view(r@) == episode_columns(*episode),
{
    let mut p: Vec<SqlValue> = Vec::new();
    p.push(SqlValue::Integer(episode.show_id));
    p.push(text_value(&episode.guid));
    p.push(text_value(&episode.title));
    p.push(opt_text_value(&episode.description));
    p.push(opt_int_value(episode.pub_date));
    p.push(
        match episode.duration {
            Some(d) => SqlValue::Integer(d as i64),
            None => SqlValue::Null,
        },
    );
    p.push(
        match episode.file_size {
            Some(d) => SqlValue::Integer(d as i64),
            None => SqlValue::Null,
        },
    );
    p.push(opt_text_value(&episode.audio_url));
    p.push(opt_text_value(&episode.audio_path));
    p.push(text_value(&episode.folder_path));
    p.push(opt_text_value(&episode.mime_type));
    p.push(
        match episode.season {
            Some(s) => SqlValue::Integer(s as i64),
            None => SqlValue::Null,
        },
    );
    p.push(
        match episode.episode_number {
            Some(n) => SqlValue::Integer(n as i64),
            None => SqlValue::Null,
        },
    );
    p.push(
        match episode.episode_type {
            Some(k) => SqlValue::Text(k.as_str().to_owned()),
            None => SqlValue::Null,
        },
    );
    assert(params_view(p@) =~= episode_columns(*episode));
    p
}

/// Bind parameters of the episode update statement: the insert's, then the id.
pub fn episode_update_params(episode: &Episode) -> (r: Vec<SqlValue>)
    ensures
        params_view(r@) == episode_columns(*episode).push(
            SqlValueView::Integer(episode.id as int),
        ),
{
    let mut p = episode_params(episode);
    let ghost before = p@;
    p.push(SqlValue::Integer(episode.id));
    assert(params_view(p@) =~= params_view(before).push(
        SqlValueView::Integer(episode.id as int),
    ));
    p
}

/// The columns of a `shows` row, typed as the driver reads them.
#[derive(Debug, Clone, PartialEq, Eq)]
pub struct ShowRow {
    pub id: i64,
    pub slug: String,
    pub feed_url: String,
    pub title: String,
    pub author: Option<String>,
    pub description: Option<String>,
    pub homepage_url: Option<String>,
    pub cover_path: Option<String>,
    pub accent_rgb: Option<i64>,
    pub apple_podcasts_id: Option<String>,
    pub last_fetched: Option<i64>,
    pub last_modified: Option<String>,
    pub etag: Option<String>,
    pub fetch_interval: i64,
    pub auth_user: Option<String>,
    pub auth_pass_ref: Option<String>,
    pub auto_download: bool,
    pub keep_count: i64,
    pub priority: i32,
    pub folder_path: String,
}

/// An optional integer column narrowed to 32 bits, truncating as `as u32`
/// does.
pub open spec fn opt_u32(v: Option<i64>) -> Option<u32> {
    match v {
        Some(x) => Some(x as u32),
        None => None,
    }
}

fn opt_u32_column(v: Option<i64>) -> (r: Option<u32>)
    ensures
        r == opt_u32(v),
{
    match v {
        Some(x) => Some(x as u32),
        None => None,
    }
}

/// The show a `shows` row holds.
pub open spec fn show_of_row(r: ShowRow, s: Show) -> bool {
    &&& s.id == r.id
    &&& s.slug@ == r.slug@
    &&& s.feed_url@ == r.feed_url@
    &&& s.title@ == r.title@
    &&& opt_chars(s.author) == opt_chars(r.author)
    &&& opt_chars(s.description) == opt_chars(r.description)
    &&& opt_chars(s.homepage_url) == opt_chars(r.homepage_url)
    &&& opt_chars(s.cover_path) == opt_chars(r.cover_path)
    &&& s.accent_rgb == opt_u32(r.accent_rgb)
    &&& opt_chars(s.apple_podcasts_id) == opt_chars(r.apple_podcasts_id)
    &&& s.last_fetched == stored_instant(r.last_fetched)
    &&& opt_chars(s.last_modified) == opt_chars(r.last_modified)
    &&& opt_chars(s.etag) == opt_chars(r.etag)
    &&& s.fetch_interval == r.fetch_interval as u32
    &&& opt_chars(s.auth_user) == opt_chars(r.auth_user)
    &&& opt_chars(s.auth_pass_ref) == opt_chars(r.auth_pass_ref)
    &&& s.auto_download == r.auto_download
    &&& s.keep_count == r.keep_count as u32
    &&& s.priority == r.priority
    &&& s.folder_path@ == r.folder_path@
}

/// Builds a show from its row.
pub fn show_from_row(row: ShowRow) -> (s: Show)
    ensures
        show_of_row(row, s),
{
    let accent_rgb = opt_u32_column(row.accent_rgb);
    let last_fetched = instant_from_column(row.last_fetched);
    Show {
        id: row.id,
        slug: row.slug,
        feed_url: row.feed_url,
        title: row.title,
        author: row.author,
        description: row.description,
        homepage_url: row.homepage_url,
        cover_path: row.cover_path,
        accent_rgb,
        apple_podcasts_id: row.apple_podcasts_id,
        last_fetched,
        last_modified: row.last_modified,
        etag: row.etag,
        fetch_interval: row.fetch_interval as u32,
        auth_user: row.auth_user,
        auth_pass_ref: row.auth_pass_ref,
        auto_download: row.auto_download,
        keep_count: row.keep_count as u32,
        priority: row.priority,
        folder_path: row.folder_path,
    }
}

/// The columns of an `episodes` row, typed as the driver reads them.
#[derive(Debug, Clone, PartialEq, Eq)]
pub struct EpisodeRow {
    pub id: i64,
    pub show_id: i64,
    pub guid: String,
    pub title: String,
    pub description: Option<String>,
    pub pub_date: Option<i64>,
    pub duration: Option<i64>,
    pub file_size: Option<i64>,
    pub audio_url: Option<String>,
    pub audio_path: Option<String>,
    pub folder_path: String,
    pub mime_type: Option<String>,
    pub season: Option<i64>,
    pub episode_number: Option<i64>,
    pub episode_type: Option<String>,
}

/// A stored `episode_type` word read back: an unknown word reads as absent.
pub open spec fn stored_episode_type(t: Option<String>) -> Option<EpisodeType> {
    match t {
        Some(w) => EpisodeType::from_name(w@),
        None => None,
    }
}

/// The episode an `episodes` row holds.
pub open spec fn episode_of_row(r: EpisodeRow, e: Episode) -> bool {
    &&& e.id == r.id
    &&& e.show_id == r.show_id
    &&& e.guid@ == r.guid@
    &&& e.title@ == r.title@
    &&& opt_chars(e.description) == opt_chars(r.description)
    &&& e.pub_date == stored_instant(r.pub_date)
    &&& e.duration == opt_u32(r.duration)
    &&& e.file_size == match r.file_size {
        Some(v) => Some(v as u64),
        None => None,
    }
    &&& opt_chars(e.audio_url) == opt_chars(r.audio_url)
    &&& opt_chars(e.audio_path) == opt_chars(r.audio_path)
    &&& e.folder_path@ == r.folder_path@
    &&& opt_chars(e.mime_type) == opt_chars(r.mime_type)
    &&& e.season == opt_u32(r.season)
    &&& e.episode_number == opt_u32(r.episode_number)
    &&& e.episode_type == stored_episode_type(r.episode_type)
}

/// Builds an episode from its row.
pub fn episode_from_row(row: EpisodeRow) -> (e: Episode)
    ensures
        episode_of_row(row, e),
{
    let episode_type = match &row.episode_type {
        Some(w) => match EpisodeType::try_from_str(w.as_str()) {
            Ok(t) => Some(t),
            Err(_) => None,
        },
        None => None,
    };
    let pub_date = instant_from_column(row.pub_date);
    let duration = opt_u32_column(row.duration);
    let season = opt_u32_column(row.season);
    let episode_number = opt_u32_column(row.episode_number);
    let file_size = match row.file_size {
        Some(v) => Some(v as u64),
        None => None,
    };
    Episode {
        id: row.id,
        show_id: row.show_id,
        guid: row.guid,
        title: row.title,
        description: row.description,
        pub_date,
        duration,
        file_size,
        audio_url: row.audio_url,
        audio_path: row.audio_path,
        folder_path: row.folder_path,
        mime_type: row.mime_type,
        season,
        episode_number,
        episode_type,
    }
}

/// The integer columns of a `playback` row (the position, a real, is read
/// by the caller).
#[derive(Debug, Clone, Copy, PartialEq, Eq)]
pub struct PlaybackRow {
    pub episode_id: i64,
    pub played: i64,
    pub last_played: Option<i64>,
    pub play_count: i64,
    pub starred: bool,
    pub in_queue: bool,
    pub queue_position: Option<i32>,
}

/// Playback state of an episode, without the position.
#[derive(Debug, Clone, Copy, PartialEq, Eq)]
pub struct PlaybackFields {
    pub episode_id: i64,
    pub played: PlayedState,
    pub last_played: Option<i64>,
    pub play_count: u32,
    pub starred: bool,
    pub in_queue: bool,
    pub queue_position: Option<i32>,
}

/// A stored `played` integer read back: an unknown value reads as unplayed.
pub open spec fn stored_played(v: i64) -> PlayedState {
    if v == 1 {
        PlayedState::InProgress
    } else if v == 2 {
        PlayedState::PlayedFully
    } else if v == 3 {
        PlayedState::ArchivedUnlistened
    } else {
        PlayedState::Unplayed
    }
}

/// Builds the playback state from its row.
pub fn playback_from_row(row: PlaybackRow) -> (p: PlaybackFields)
    ensures
        p == (PlaybackFields {
            episode_id: row.episode_id,
            played: stored_played(row.played),
            last_played: stored_instant(row.last_played),
            play_count: row.play_count as u32,
            starred: row.starred,
            in_queue: row.in_queue,
            queue_position: row.queue_position,
        }),
{
    let played = match PlayedState::from_i64(row.played) {
        Some(s) => s,
        None => PlayedState::Unplayed,
    };
    PlaybackFields {
        episode_id: row.episode_id,
        played,
        last_played: instant_from_column(row.last_played),
        play_count: row.play_count as u32,
        starred: row.starred,
        in_queue: row.in_queue,
        queue_position: row.queue_position,
    }
}

/// The non-real columns of a `show_settings` row (the playback speed, a
/// real, is read by the caller).
#[derive(Debug, Clone, PartialEq, Eq)]
pub struct ShowSettingsRow {
    pub show_id: i64,
    pub smart_speed: bool,
    pub voice_boost: bool,
    pub skip_intro: i64,
    pub skip_outro: i64,
    pub skip_forward: Option<i64>,
    pub skip_back: Option<i64>,
    pub inbox_policy: String,
}

/// Per-show overrides, without the playback speed.
#[derive(Debug, Clone, Copy, PartialEq, Eq)]
pub struct ShowSettingsFields {
    pub show_id: i64,
    pub smart_speed: bool,
    pub voice_boost: bool,
    pub skip_intro: u32,
    pub skip_outro: u32,
    pub skip_forward: Option<u32>,
    pub skip_back: Option<u32>,
    pub inbox_policy: InboxPolicy,
}

/// A stored `inbox_policy` word read back: an unknown word reads as the
/// default policy.
pub open spec fn stored_inbox_policy(w: Seq<char>) -> InboxPolicy {
    match InboxPolicy::from_name(w) {
        Some(p) => p,
        None => InboxPolicy::Inbox,
    }
}

/// Builds the show settings from their row.
pub fn show_settings_from_row(row: ShowSettingsRow) -> (s: ShowSettingsFields)
    ensures
        s == (ShowSettingsFields {
            show_id: row.show_id,
            smart_speed: row.smart_speed,
            voice_boost: row.voice_boost,
            skip_intro: row.skip_intro as u32,
            skip_outro: row.skip_outro as u32,
            skip_forward: opt_u32(row.skip_forward),
            skip_back: opt_u32(row.skip_back),
            inbox_policy: stored_inbox_policy(row.inbox_policy@),
        }),
{
    let inbox_policy = match InboxPolicy::try_from_str(row.inbox_policy.as_str()) {
        Ok(p) => p,
        Err(_) => InboxPolicy::default(),
    };
    ShowSettingsFields {
        show_id: row.show_id,
        smart_speed: row.smart_speed,
        voice_boost: row.voice_boost,
        skip_intro: row.skip_intro as u32,
        skip_outro: row.skip_outro as u32,
        skip_forward: opt_u32_column(row.skip_forward),
        skip_back: opt_u32_column(row.skip_back),
        inbox_policy,
    }
}

/// The integer columns of a `listening_sessions` row (the three durations,
/// reals, are read by the caller).
#[derive(Debug, Clone, Copy, PartialEq, Eq)]
pub struct SessionRow {
    pub id: i64,
    pub episode_id: i64,
    pub started_at: i64,
    pub ended_at: i64,
}

/// A listening session's identity and span, without the durations.
#[derive(Debug, Clone, Copy, PartialEq, Eq)]
pub struct SessionFields {
    pub id: i64,
    pub episode_id: i64,
    pub started_at: i64,
    pub ended_at: i64,
}

/// A stored required instant read back: values `chrono` cannot represent
/// read as the epoch.
pub open spec fn stored_required_instant(t: i64) -> i64 {
    if representable(t as int) {
        t
    } else {
        0
    }
}

/// Builds a session's identity and span from its row.
pub fn session_from_row(row: SessionRow) -> (s: SessionFields)
    ensures
        s == (SessionFields {
            id: row.id,
            episode_id: row.episode_id,
            started_at: stored_required_instant(row.started_at),
            ended_at: stored_required_instant(row.ended_at),
        }),
{
    SessionFields {
        id: row.id,
        episode_id: row.episode_id,
        started_at: instant_or_epoch(row.started_at),
        ended_at: instant_or_epoch(row.ended_at),
    }
}

/// The value SQLite hands back for an optional integer column.
pub open spec fn opt_int64(v: Option<i64>) -> SqlValueView {
    match v {
        Some(i) => SqlValueView::Integer(i as int),
        None => SqlValueView::Null,
    }
}

/// `row` is what the store hands back for a show stored with the bind
/// parameters `cols`: each column reads as the value that was bound (a
/// boolean reads as whether the stored integer is non-zero).
pub open spec fn show_row_holds(row: ShowRow, cols: Seq<SqlValueView>) -> bool {
    &&& cols.len() >= 19
    &&& cols[0] == text(row.slug)
    &&& cols[1] == text(row.feed_url)
    &&& cols[2] == text(row.title)
    &&& cols[3] == opt_text(row.author)
    &&& cols[4] == opt_text(row.description)
    &&& cols[5] == opt_text(row.homepage_url)
    &&& cols[6] == opt_text(row.cover_path)
    &&& cols[7] == opt_int64(row.accent_rgb)
    &&& cols[8] == opt_text(row.apple_podcasts_id)
    &&& cols[9] == opt_int64(row.last_fetched)
    &&& cols[10] == opt_text(row.last_modified)
    &&& cols[11] == opt_text(row.etag)
    &&& cols[12] == SqlValueView::Integer(row.fetch_interval as int)
    &&& cols[13] == opt_text(row.auth_user)
    &&& cols[14] == opt_text(row.auth_pass_ref)
    &&& cols[15] matches SqlValueView::Integer(k) && (k != 0) == row.auto_download
    &&& cols[16] == SqlValueView::Integer(row.keep_count as int)
    &&& cols[17] == SqlValueView::Integer(row.priority as int)
    &&& cols[18] == text(row.folder_path)
}

/// Two shows hold the same values.
pub open spec fn same_show(a: Show, b: Show) -> bool {
    &&& a.id == b.id
    &&& a.slug@ == b.slug@
    &&& a.feed_url@ == b.feed_url@
    &&& a.title@ == b.title@
    &&& opt_chars(a.author) == opt_chars(b.author)
    &&& opt_chars(a.description) == opt_chars(b.description)
    &&& opt_chars(a.homepage_url) == opt_chars(b.homepage_url)
    &&& opt_chars(a.cover_path) == opt_chars(b.cover_path)
    &&& a.accent_rgb == b.accent_rgb
    &&& opt_chars(a.apple_podcasts_id) == opt_chars(b.apple_podcasts_id)
    &&& a.last_fetched == b.last_fetched
    &&& opt_chars(a.last_modified) == opt_chars(b.last_modified)
    &&& opt_chars(a.etag) == opt_chars(b.etag)
    &&& a.fetch_interval == b.fetch_interval
    &&& opt_chars(a.auth_user) == opt_chars(b.auth_user)
    &&& opt_chars(a.auth_pass_ref) == opt_chars(b.auth_pass_ref)
    &&& a.auto_download == b.auto_download
    &&& a.keep_count == b.keep_count
    &&& a.priority == b.priority
    &&& a.folder_path@ == b.folder_path@
}

proof fn lemma_opt_text_inj(a: Option<String>, b: Option<String>)
    requires
        opt_text(a) == opt_text(b),
    ensures
        opt_chars(a) == opt_chars(b),
{
}

/// What a read gives back of a write: a show stored with `show_params` and
/// read back with `show_from_row` is the show that was stored, provided its
/// last-fetched instant is one `chrono` can represent.
pub proof fn lemma_show_round_trip(s: Show, row: ShowRow, back: Show)
    requires
        show_row_holds(row, show_columns(s)),
        row.id == s.id,
        s.last_fetched matches Some(t) ==> representable(t as int),
        show_of_row(row, back),
    ensures
        same_show(back, s),
{
    let cols = show_columns(s);
    lemma_opt_text_inj(row.author, s.author);
    lemma_opt_text_inj(row.description, s.description);
    lemma_opt_text_inj(row.homepage_url, s.homepage_url);
    lemma_opt_text_inj(row.cover_path, s.cover_path);
    lemma_opt_text_inj(row.apple_podcasts_id, s.apple_podcasts_id);
    lemma_opt_text_inj(row.last_modified, s.last_modified);
    lemma_opt_text_inj(row.etag, s.etag);
    lemma_opt_text_inj(row.auth_user, s.auth_user);
    lemma_opt_text_inj(row.auth_pass_ref, s.auth_pass_ref);
    assert(cols[7] == opt_int64(row.accent_rgb));
    if let Some(v) = s.accent_rgb {
        let w = row.accent_rgb->0;
        assert(w as int == v as int);
        assert(w as u32 == v);
    }
    assert(cols[15] == flag(s.auto_download));
}

/// `row` is what the store hands back for an episode stored with the bind
/// parameters `cols`: each column reads as the value that was bound.
pub open spec fn episode_row_holds(row: EpisodeRow, cols: Seq<SqlValueView>) -> bool {
    &&& cols.len() >= 14
    &&& cols[0] == SqlValueView::Integer(row.show_id as int)
    &&& cols[1] == text(row.guid)
    &&& cols[2] == text(row.title)
    &&& cols[3] == opt_text(row.description)
    &&& cols[4] == opt_int64(row.pub_date)
    &&& cols[5] == opt_int64(row.duration)
    &&& cols[6] == opt_int64(row.file_size)
    &&& cols[7] == opt_text(row.audio_url)
    &&& cols[8] == opt_text(row.audio_path)
    &&& cols[9] == text(row.folder_path)
    &&& cols[10] == opt_text(row.mime_type)
    &&& cols[11] == opt_int64(row.season)
    &&& cols[12] == opt_int64(row.episode_number)
    &&& cols[13] == opt_text(row.episode_type)
}

/// Two episodes hold the same values.
pub open spec fn same_episode(a: Episode, b: Episode) -> bool {
    &&& a.id == b.id
    &&& a.show_id == b.show_id
    &&& a.guid@ == b.guid@
    &&& a.title@ == b.title@
    &&& opt_chars(a.description) == opt_chars(b.description)
    &&& a.pub_date == b.pub_date
    &&& a.duration == b.duration
    &&& a.file_size == b.file_size
    &&& opt_chars(a.audio_url) == opt_chars(b.audio_url)
    &&& opt_chars(a.audio_path) == opt_chars(b.audio_path)
    &&& a.folder_path@ == b.folder_path@
    &&& opt_chars(a.mime_type) == opt_chars(b.mime_type)
    &&& a.season == b.season
    &&& a.episode_number == b.episode_number
    &&& a.episode_type == b.episode_type
}

proof fn lemma_u32_through_i64(v: u32, w: i64)
    requires
        w as int == v as int,
    ensures
        w as u32 == v,
{
}

/// What a read gives back of a write: an episode stored with
/// `episode_params` and read back with `episode_from_row` is the episode that
/// was stored, provided its publication instant is one `chrono` can
/// represent. File sizes above `i64::MAX` survive the signed column too.
pub proof fn lemma_episode_round_trip(e: Episode, row: EpisodeRow, back: Episode)
    requires
        episode_row_holds(row, episode_columns(e)),
        row.id == e.id,
        e.pub_date matches Some(t) ==> representable(t as int),
        episode_of_row(row, back),
    ensures
        same_episode(back, e),
{
    let cols = episode_columns(e);
    lemma_opt_text_inj(row.description, e.description);
    lemma_opt_text_inj(row.audio_url, e.audio_url);
    lemma_opt_text_inj(row.audio_path, e.audio_path);
    lemma_opt_text_inj(row.mime_type, e.mime_type);
    if let Some(v) = e.duration {
        lemma_u32_through_i64(v, row.duration->0);
    }
    if let Some(v) = e.season {
        lemma_u32_through_i64(v, row.season->0);
    }
    if let Some(v) = e.episode_number {
        lemma_u32_through_i64(v, row.episode_number->0);
    }
    if let Some(v) = e.file_size {
        let w = row.file_size->0;
        assert(w as int == (v as i64) as int);
        assert(w == v as i64);
        assert((v as i64) as u64 == v) by (bit_vector);
    }
    if let Some(k) = e.episode_type {
        assert(cols[13] == SqlValueView::Text(k.name()));
        crate::db::domain::lemma_episode_type_name_round_trip(k);
    } else {
        assert(row.episode_type is None);
    }
}

/// The `played` column reads back as the state that was stored, for every
/// state; an integer reads as unplayed only when it is 0 or outside `0..=3`.
pub proof fn lemma_played_column_round_trip(s: PlayedState, v: i64)
    ensures
        stored_played(s.code()) == s,
        (v < 0 || v > 3) ==> stored_played(v) == PlayedState::Unplayed,
        stored_played(v) == PlayedState::Unplayed ==> v == 0 || v < 0 || v > 3,
{
}

/// The `inbox_policy` column reads back as the policy that was stored, for
/// every policy; a word reads as the inbox policy only when it is that
/// policy's word or no policy's word.
pub proof fn lemma_inbox_policy_column_round_trip(p: InboxPolicy, w: Seq<char>)
    ensures
        stored_inbox_policy(p.name()) == p,
        InboxPolicy::from_name(w) is None ==> stored_inbox_policy(w) == InboxPolicy::Inbox,
        stored_inbox_policy(w) == InboxPolicy::Inbox ==> InboxPolicy::from_name(w) is None || w
            == InboxPolicy::Inbox.name(),
{
    crate::db::domain::lemma_inbox_policy_name_round_trip(p);
    if InboxPolicy::from_name(w) is Some {
        crate::db::domain::lemma_inbox_policy_name_round_trip(InboxPolicy::from_name(w)->0);
    }
}

/// Every show can be stored and read back: its bind parameters are ones the
/// store holds as some row, and whatever row holds them reads back as the
/// show that was stored (its last-fetched instant one `chrono` can hold).
pub proof fn lemma_show_stored_and_read_back(s: Show)
    requires
        s.last_fetched matches Some(t) ==> representable(t as int),
    ensures
        exists|row: ShowRow| #[trigger] show_row_holds(row, show_columns(s)) && row.id == s.id,
        forall|row: ShowRow, back: Show|
            #![trigger show_row_holds(row, show_columns(s)), show_of_row(row, back)]
            show_row_holds(row, show_columns(s)) && row.id == s.id && show_of_row(row, back)
                ==> same_show(back, s),
{
    let row = ShowRow {
        id: s.id,
        slug: s.slug,
        feed_url: s.feed_url,
        title: s.title,
        author: s.author,
        description: s.description,
        homepage_url: s.homepage_url,
        cover_path: s.cover_path,
        accent_rgb: match s.accent_rgb {
            Some(v) => Some(v as i64),
            None => None,
        },
        apple_podcasts_id: s.apple_podcasts_id,
        last_fetched: s.last_fetched,
        last_modified: s.last_modified,
        etag: s.etag,
        fetch_interval: s.fetch_interval as i64,
        auth_user: s.auth_user,
        auth_pass_ref: s.auth_pass_ref,
        auto_download: s.auto_download,
        keep_count: s.keep_count as i64,
        priority: s.priority,
        folder_path: s.folder_path,
    };
    assert(show_row_holds(row, show_columns(s)));
    assert forall|row: ShowRow, back: Show|
        show_row_holds(row, show_columns(s)) && row.id == s.id && show_of_row(
            row,
            back,
        ) implies same_show(back, s) by {
        lemma_show_round_trip(s, row, back);
    }
}

} // verus!
