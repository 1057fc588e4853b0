//! The kinds of request the single writer serves, and the stable names under
//! which they are traced.

use vstd::prelude::*;

verus! {

/// What a request to the writer asks for.
#[derive(Debug, Clone, Copy, PartialEq, Eq, Structural)]
pub enum CommandKind {
    // Shows
    InsertShow,
    UpdateShow,
    DeleteShow,
    GetShow,
    ListShows,
    // Episodes
    InsertEpisode,
    UpdateEpisode,
    DeleteEpisode,
    GetEpisode,
    GetEpisodeByGuid,
    ListEpisodesForShow,
    // Playback
    UpsertPlayback,
    GetPlayback,
    // Show settings
    UpsertShowSettings,
    GetShowSettings,
    // Chapters
    ReplaceChapters,
    ListChapters,
    // Tags
    GetOrCreateTag,
    ListTags,
    SetShowTags,
    ListTagsForShow,
    // Listening sessions
    InsertSession,
    ListSessionsForEpisode,
    TotalRealSeconds,
    TotalSmartSpeedSaved,
    // Worker control
    Shutdown,
}

impl CommandKind {
    /// The stable trace name of the kind.
    pub open spec fn name(self) -> Seq<char> {
        match self {
            CommandKind::InsertShow => "insert_show"@,
            CommandKind::UpdateShow => "update_show"@,
            CommandKind::DeleteShow => "delete_show"@,
            CommandKind::GetShow => "get_show"@,
            CommandKind::ListShows => "list_shows"@,
            CommandKind::InsertEpisode => "insert_episode"@,
            CommandKind::UpdateEpisode => "update_episode"@,
            CommandKind::DeleteEpisode => "delete_episode"@,
            CommandKind::GetEpisode => "get_episode"@,
            CommandKind::GetEpisodeByGuid => "get_episode_by_guid"@,
            CommandKind::ListEpisodesForShow => "list_episodes_for_show"@,
            CommandKind::UpsertPlayback => "upsert_playback"@,
            CommandKind::GetPlayback => "get_playback"@,
            CommandKind::UpsertShowSettings => "upsert_show_settings"@,
            CommandKind::GetShowSettings => "get_show_settings"@,
            CommandKind::ReplaceChapters => "replace_chapters"@,
            CommandKind::ListChapters => "list_chapters"@,
            CommandKind::GetOrCreateTag => "get_or_create_tag"@,
            CommandKind::ListTags => "list_tags"@,
            CommandKind::SetShowTags => "set_show_tags"@,
            CommandKind::ListTagsForShow => "list_tags_for_show"@,
            CommandKind::InsertSession => "insert_session"@,
            CommandKind::ListSessionsForEpisode => "list_sessions_for_episode"@,
            CommandKind::TotalRealSeconds => "total_real_seconds"@,
            CommandKind::TotalSmartSpeedSaved => "total_smart_speed_saved"@,
            CommandKind::Shutdown => "shutdown"@,
        }
    }

    /// The stable trace name of the kind.
    pub fn kind(&self) -> (r: &'static str)
        ensures
            r@ == self.name(),
    {
        match self {
            CommandKind::InsertShow => "insert_show",
            CommandKind::UpdateShow => "update_show",
            CommandKind::DeleteShow => "delete_show",
            CommandKind::GetShow => "get_show",
            CommandKind::ListShows => "list_shows",
            CommandKind::InsertEpisode => "insert_episode",
            CommandKind::UpdateEpisode => "update_episode",
            CommandKind::DeleteEpisode => "delete_episode",
            CommandKind::GetEpisode => "get_episode",
            CommandKind::GetEpisodeByGuid => "get_episode_by_guid",
            CommandKind::ListEpisodesForShow => "list_episodes_for_show",
            CommandKind::UpsertPlayback => "upsert_playback",
            CommandKind::GetPlayback => "get_playback",
            CommandKind::UpsertShowSettings => "upsert_show_settings",
            CommandKind::GetShowSettings => "get_show_settings",
            CommandKind::ReplaceChapters => "replace_chapters",
            CommandKind::ListChapters => "list_chapters",
            CommandKind::GetOrCreateTag => "get_or_create_tag",
            CommandKind::ListTags => "list_tags",
            CommandKind::SetShowTags => "set_show_tags",
            CommandKind::ListTagsForShow => "list_tags_for_show",
            CommandKind::InsertSession => "insert_session",
            CommandKind::ListSessionsForEpisode => "list_sessions_for_episode",
            CommandKind::TotalRealSeconds => "total_real_seconds",
            CommandKind::TotalSmartSpeedSaved => "total_smart_speed_saved",
            CommandKind::Shutdown => "shutdown",
        }
    }
}

} // verus!
