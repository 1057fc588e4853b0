//! Request kinds of the writer and the migration plan.

use belfry_core::db::command::CommandKind;
use belfry_core::db::migrations::{pending_migrations, CURRENT_VERSION};

#[test]
fn command_kind_names_are_stable() {
    assert_eq!(CommandKind::InsertShow.kind(), "insert_show");
    assert_eq!(CommandKind::GetEpisodeByGuid.kind(), "get_episode_by_guid");
    assert_eq!(CommandKind::ListEpisodesForShow.kind(), "list_episodes_for_show");
    assert_eq!(CommandKind::UpsertShowSettings.kind(), "upsert_show_settings");
    assert_eq!(CommandKind::ListSessionsForEpisode.kind(), "list_sessions_for_episode");
    assert_eq!(CommandKind::TotalSmartSpeedSaved.kind(), "total_smart_speed_saved");
    assert_eq!(CommandKind::Shutdown.kind(), "shutdown");
}

#[test]
fn fresh_store_gets_the_initial_schema() {
    assert_eq!(CURRENT_VERSION, 1);
    assert_eq!(pending_migrations(0), vec![1]);
    assert_eq!(pending_migrations(-3), vec![1]);
}

#[test]
fn migrated_store_needs_nothing() {
    assert!(pending_migrations(CURRENT_VERSION).is_empty());
    assert!(pending_migrations(7).is_empty());
}
