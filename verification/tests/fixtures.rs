//! Synthetic library plans.

use belfry_core::db::domain::EpisodeType;
use belfry_core::db::fixtures::{fixture_episode, fixture_show, FixturePlan, FixtureScale, FixtureStep};
use belfry_core::errors::Error;

const NOW: i64 = 1_700_000_000; // 2023-11-14T22:13:20Z

#[test]
fn scale_sizes() {
    assert_eq!(FixtureScale::Small.shows(), 10);
    assert_eq!(FixtureScale::Small.episodes_per_show(), 10);
    assert_eq!(FixtureScale::Medium.shows(), 50);
    assert_eq!(FixtureScale::Medium.episodes_per_show(), 20);
    assert_eq!(FixtureScale::Large.shows(), 100);
    assert_eq!(FixtureScale::Large.episodes_per_show(), 100);
    assert_eq!(FixtureScale::Stress.shows(), 100);
    assert_eq!(FixtureScale::Stress.episodes_per_show(), 500);
}

#[test]
fn scale_names_parse() {
    assert_eq!("small".parse::<FixtureScale>().unwrap(), FixtureScale::Small);
    assert_eq!("medium".parse::<FixtureScale>().unwrap(), FixtureScale::Medium);
    assert_eq!("large".parse::<FixtureScale>().unwrap(), FixtureScale::Large);
    assert_eq!("stress".parse::<FixtureScale>().unwrap(), FixtureScale::Stress);
    match "Small".parse::<FixtureScale>() {
        Err(Error::InvalidEnum { field, value }) => {
            assert_eq!(field, "fixture_scale");
            assert_eq!(value, "Small");
        }
        other => panic!("unexpected {other:?}"),
    }
}

#[test]
fn synthetic_show_fields() {
    let s = fixture_show(7, NOW);
    assert_eq!(s.id, 0);
    assert_eq!(s.slug, "show-0007");
    assert_eq!(s.feed_url, "https://example.com/show-0007.rss");
    assert_eq!(s.title, "Show 7");
    assert_eq!(s.author.as_deref(), Some("Author 7"));
    assert_eq!(s.description.as_deref(), Some("Synthesized show 7 for stress testing."));
    assert_eq!(s.last_fetched, Some(NOW));
    assert_eq!(s.fetch_interval, 3600);
    assert!(s.auto_download);
    assert_eq!(s.priority, 7);
    assert_eq!(s.folder_path, "shows/show-0007");
    let s = fixture_show(23, NOW);
    assert_eq!(s.author.as_deref(), Some("Author 3"));
    assert_eq!(s.priority, 3);
}

#[test]
fn synthetic_episode_fields() {
    let e = fixture_episode(3, 1, 42, NOW);
    assert_eq!(e.show_id, 42);
    assert_eq!(e.guid, "show-0003-ep-0001");
    assert_eq!(e.title, "Show 3 Episode 1");
    assert_eq!(e.description.as_deref(), Some("Synthesized episode 1 of show 3."));
    assert_eq!(e.pub_date, Some(NOW - 86_400));
    assert_eq!(e.duration, Some(1801));
    assert_eq!(e.file_size, Some(50_100_000));
    assert_eq!(e.audio_url.as_deref(), Some("https://example.com/show-0003/ep-0001.mp3"));
    assert_eq!(e.folder_path, "shows/show-0003/2023-11-13-ep-0001");
    assert_eq!(e.mime_type.as_deref(), Some("audio/mpeg"));
    assert_eq!(e.episode_number, Some(1));
    assert_eq!(e.episode_type, Some(EpisodeType::Full));
    let e = fixture_episode(0, 0, 1, NOW);
    assert_eq!(e.folder_path, "shows/show-0000/2023-11-14-ep-0000");
}

#[test]
fn small_plan_inserts_every_show_then_its_episodes() {
    let mut plan = FixturePlan::new(FixtureScale::Small, NOW);
    let mut shows = 0;
    let mut episodes = 0;
    let mut next_id = 100;
    let mut current_show = None;
    while let Some(step) = plan.next_action() {
        match step {
            FixtureStep::InsertShow(s) => {
                assert_eq!(s.slug, format!("show-{shows:04}"));
                shows += 1;
                current_show = Some(next_id);
            }
            FixtureStep::InsertEpisode(e) => {
                assert_eq!(Some(e.show_id), current_show);
                episodes += 1;
            }
        }
        plan.complete(next_id);
        next_id += 1;
    }
    assert_eq!(shows, 10);
    assert_eq!(episodes, 100);
}
