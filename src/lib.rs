//! Queue, player and media-cache logic of a voice-channel music bot.
//!
//! - `cache`: the process-wide media cache (link or song id to song or playlist) and its store.
//! - `link`: resolver metadata, the provider-link test, file names of downloads.
//! - `audio`: answering a link from the cache or through a resolver.
//! - `player`, `queue`: one guild's player state machine, queue, loop policy and saved queues.
//! - `display`: the texts of listings, durations and progress bars.
mod audio;
mod cache;
mod common;
mod display;
mod link;
mod player;
mod queue;
mod song;
mod store;

pub use audio::{
    all_cached, assembled, cached_songs, expand_members, lemma_cached_link_needs_no_resolver, plans_entity, plans_member,
    ready_songs, yt_ids, AudioManager, LinkError, LinkPlan, MemberPlan, Resolved,
};
pub use cache::{
    all_songs, entity_songs, entries_to_map, entry_views, member_songs, pair_views, CacheManager, CacheSaver,
    CacheSaverError, CachedEntity, EntityModel, MemoryCacheSaver,
};
pub use common::{equals_ignoring_case, same_letter, Config, Data, DataRegistryError};
pub use display::{
    decimal, digit_char, duration_text, filled_cells, format_duration, get_progress_bar,
    list_fields, listed_duration, map_song, now_playing_text, page_count, page_title,
    push_decimal, remaining_seconds, repeated, shown_duration, two_digits, MAX_EMBED_FIELD_COUNT,
    PROGRESS_BAR_EMPTY, PROGRESS_BAR_FILL, PROGRESS_BAR_LENGTH,
};
pub use link::{
    describes, entry_urls, extension_for, file_name, find_cached_song_extension, first_or_unknown,
    from_pl, from_sv, get_artist, get_link, get_title, get_url, get_urls, has_link,
    is_provider_link, is_yt_link, join_path, joined, link_of, linked, make_file_name, mp3_text,
    output_template, resolve_output, retry_step, template_name, url_of, FileName,
    LinkHandlerResult, LinkHandling, NullLinkHandler, ResolvedInfo, RetryStep, VideoInfo,
    YtSongError, YOUTUBE_REGEX,
};
pub use player::{CurrentSong, LoopMode, Player, PlayerError};
pub use queue::{
    after_removal, can_start, completions, finished, id_views, lemma_queue_loop_cycles,
    lemma_queue_loop_rotates, lemma_completions_add, lemma_queue_loop_periodic,
    lemma_queue_loop_requeues_back, lemma_repeat_requeues_front, lemma_queue_loop_step, lemma_repeat_two,
    lemma_saved_queue_round_trip, lemma_song_loop_replays, lemma_song_loop_skip_drops, lineup,
    mode_after, requeued, rotated, saved_to_map, snapshot_ids, started, without_ids,
    NullQueueSaver, QueueError, QueueManager, QueueModel, QueueSaver, SavedQueue,
    TransportAction,
};
pub use song::{clone_opt_string, clone_songs, clone_strings, ids_of, song_ids, CachedSong, Song, YtSong};
pub use store::StringMap;
