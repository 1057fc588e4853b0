//! Column encoding and decoding.

use belfry_core::db::domain::{Episode, EpisodeType, InboxPolicy, PlayedState, Show};
use belfry_core::db::rows::{
    episode_from_row, episode_params, episode_update_params, playback_from_row,
    session_from_row, show_from_row, show_params, show_settings_from_row, show_update_params,
    EpisodeRow, PlaybackRow, SessionRow, ShowRow, ShowSettingsRow, SqlValue,
};
use belfry_core::timestamps::{instant_from_column, instant_or_epoch};

const MIN_SECOND: i64 = -8_334_601_228_800;
const MAX_SECOND: i64 = 8_210_266_876_799;

fn sample_show() -> Show {
    Show {
        id: 9,
        slug: "s".into(),
        feed_url: "https://f".into(),
        title: "T".into(),
        author: None,
        description: Some("d".into()),
        homepage_url: None,
        cover_path: None,
        accent_rgb: Some(0xff8800),
        apple_podcasts_id: None,
        last_fetched: Some(1_700_000_000),
        last_modified: None,
        etag: Some("e".into()),
        fetch_interval: 3600,
        auth_user: None,
        auth_pass_ref: None,
        auto_download: true,
        keep_count: 5,
        priority: -2,
        folder_path: "shows/s".into(),
    }
}

fn sample_episode() -> Episode {
    Episode {
        id: 4,
        show_id: 9,
        guid: "g".into(),
        title: "E".into(),
        description: None,
        pub_date: Some(0),
        duration: Some(61),
        file_size: Some(u64::MAX),
        audio_url: Some("https://a".into()),
        audio_path: None,
        folder_path: "shows/s/e".into(),
        mime_type: None,
        season: Some(2),
        episode_number: None,
        episode_type: Some(EpisodeType::Bonus),
    }
}

#[test]
fn show_params_in_statement_order() {
    let p = show_params(&sample_show());
    assert_eq!(p.len(), 19);
    assert_eq!(p[0], SqlValue::Text("s".into()));
    assert_eq!(p[3], SqlValue::Null);
    assert_eq!(p[7], SqlValue::Integer(0xff8800));
    assert_eq!(p[9], SqlValue::Integer(1_700_000_000));
    assert_eq!(p[15], SqlValue::Integer(1));
    assert_eq!(p[17], SqlValue::Integer(-2));
    assert_eq!(p[18], SqlValue::Text("shows/s".into()));
    let u = show_update_params(&sample_show());
    assert_eq!(u.len(), 20);
    assert_eq!(u[19], SqlValue::Integer(9));
}

#[test]
fn episode_params_in_statement_order() {
    let p = episode_params(&sample_episode());
    assert_eq!(p.len(), 14);
    assert_eq!(p[0], SqlValue::Integer(9));
    assert_eq!(p[4], SqlValue::Integer(0));
    assert_eq!(p[6], SqlValue::Integer(-1));
    assert_eq!(p[11], SqlValue::Integer(2));
    assert_eq!(p[12], SqlValue::Null);
    assert_eq!(p[13], SqlValue::Text("bonus".into()));
    let u = episode_update_params(&sample_episode());
    assert_eq!(u[14], SqlValue::Integer(4));
}

fn row_of(show: &Show) -> ShowRow {
    ShowRow {
        id: show.id,
        slug: show.slug.clone(),
        feed_url: show.feed_url.clone(),
        title: show.title.clone(),
        author: show.author.clone(),
        description: show.description.clone(),
        homepage_url: show.homepage_url.clone(),
        cover_path: show.cover_path.clone(),
        accent_rgb: show.accent_rgb.map(|v| v as i64),
        apple_podcasts_id: show.apple_podcasts_id.clone(),
        last_fetched: show.last_fetched,
        last_modified: show.last_modified.clone(),
        etag: show.etag.clone(),
        fetch_interval: show.fetch_interval as i64,
        auth_user: show.auth_user.clone(),
        auth_pass_ref: show.auth_pass_ref.clone(),
        auto_download: show.auto_download,
        keep_count: show.keep_count as i64,
        priority: show.priority,
        folder_path: show.folder_path.clone(),
    }
}

#[test]
fn show_round_trips_through_its_row() {
    let s = sample_show();
    assert_eq!(show_from_row(row_of(&s)), s);
}

#[test]
fn show_row_with_unrepresentable_instant_reads_none() {
    let mut row = row_of(&sample_show());
    row.last_fetched = Some(i64::MAX);
    assert_eq!(show_from_row(row).last_fetched, None);
}

#[test]
fn episode_round_trips_through_its_row() {
    let e = sample_episode();
    let row = EpisodeRow {
        id: e.id,
        show_id: e.show_id,
        guid: e.guid.clone(),
        title: e.title.clone(),
        description: e.description.clone(),
        pub_date: e.pub_date,
        duration: e.duration.map(|v| v as i64),
        file_size: e.file_size.map(|v| v as i64),
        audio_url: e.audio_url.clone(),
        audio_path: e.audio_path.clone(),
        folder_path: e.folder_path.clone(),
        mime_type: e.mime_type.clone(),
        season: e.season.map(|v| v as i64),
        episode_number: e.episode_number.map(|v| v as i64),
        episode_type: Some("bonus".into()),
    };
    assert_eq!(episode_from_row(row.clone()), e);
    let mut odd = row;
    odd.episode_type = Some("minisode".into());
    assert_eq!(episode_from_row(odd).episode_type, None);
}

#[test]
fn instants_at_the_representable_edges() {
    assert_eq!(instant_from_column(Some(MIN_SECOND)), Some(MIN_SECOND));
    assert_eq!(instant_from_column(Some(MIN_SECOND - 1)), None);
    assert_eq!(instant_from_column(Some(MAX_SECOND)), Some(MAX_SECOND));
    assert_eq!(instant_from_column(Some(MAX_SECOND + 1)), None);
    assert_eq!(instant_from_column(None), None);
    assert_eq!(instant_or_epoch(MAX_SECOND + 1), 0);
    assert_eq!(instant_or_epoch(-5), -5);
}

#[test]
fn playback_row_decoding() {
    let p = playback_from_row(PlaybackRow {
        episode_id: 3,
        played: 2,
        last_played: Some(10),
        play_count: 4,
        starred: true,
        in_queue: false,
        queue_position: None,
    });
    assert_eq!(p.played, PlayedState::PlayedFully);
    assert_eq!(p.last_played, Some(10));
    assert_eq!(p.play_count, 4);
    let p = playback_from_row(PlaybackRow {
        episode_id: 3,
        played: 9,
        last_played: None,
        play_count: 0,
        starred: false,
        in_queue: true,
        queue_position: Some(1),
    });
    assert_eq!(p.played, PlayedState::Unplayed);
    assert_eq!(p.queue_position, Some(1));
}

#[test]
fn show_settings_row_decoding() {
    let s = show_settings_from_row(ShowSettingsRow {
        show_id: 1,
        smart_speed: true,
        voice_boost: false,
        skip_intro: 30,
        skip_outro: 0,
        skip_forward: Some(45),
        skip_back: None,
        inbox_policy: "always_archive".into(),
    });
    assert_eq!(s.inbox_policy, InboxPolicy::AlwaysArchive);
    assert_eq!(s.skip_intro, 30);
    assert_eq!(s.skip_forward, Some(45));
    let s = show_settings_from_row(ShowSettingsRow {
        show_id: 1,
        smart_speed: false,
        voice_boost: false,
        skip_intro: 0,
        skip_outro: 0,
        skip_forward: None,
        skip_back: None,
        inbox_policy: "whatever".into(),
    });
    assert_eq!(s.inbox_policy, InboxPolicy::Inbox);
}

#[test]
fn session_row_decoding() {
    let s = session_from_row(SessionRow { id: 1, episode_id: 2, started_at: 100, ended_at: i64::MIN });
    assert_eq!(s.started_at, 100);
    assert_eq!(s.ended_at, 0);
}
