//! Per-tenant voice playback orchestration: one live session per guild, an
//! ordered playback queue, lazy expansion of playlists driven by
//! track-completion events, and per-tenant volume state.
//!
//! The library holds the decision logic only. Opening voice connections,
//! resolving media, and durable persistence are performed by the surrounding
//! program, which hands plain values in and carries the decided actions out.

mod classify;
mod config;
mod errors;
mod laws;
mod listing;
mod orchestrator;
mod playlist;
mod queue;
mod registry;
mod session;
mod track;

pub use classify::{classify_query, is_absolute_url, spec_classify, url_query_keys, QueryType, PLAYLIST_PARAM};
pub use config::{find_config, GuildConfig, VolumeStore};
pub use errors::CommandError;
pub use laws::{lemma_bypass_skip_disables_continuation, lemma_playlist_expansion_step, lemma_completion_pops_source_order, lemma_enqueue_creates_one_session, lemma_enqueues_keep_submission_order};
pub use listing::{entry_reprs, line_views, listing_line_entry, parse_playlist_listing, spec_parse_listing, split_first_entry};
pub use orchestrator::{should_teardown, Orchestrator};
pub use playlist::{entry_repr, PendingPlaylist, PlaylistEntry};
pub use queue::PlaybackQueue;
pub use registry::{find_session, GuildSessionRegistry};
pub use session::VoiceSession;
pub use track::{clone_opt_string, track_repr, track_wf, Track, DEFAULT_VOLUME, MAX_VOLUME};
