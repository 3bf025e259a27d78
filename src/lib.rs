//! Resolves an (artist, album) pair to one canonical official release of a
//! music-metadata catalog and retrieves its ordered track listing.
//!
//! The network round trips are left to the caller: this library builds the
//! request URLs, picks the release among the search candidates, extracts the
//! tracks from a release's detail record and decides each step of a lookup.
mod lookup;
mod model;
mod query;
mod select;

pub use lookup::{
    after_detail, after_search, first_media_tracks, titles_of, track_titles,
    tracks_of_first_media, LookupOutcome, SearchStep,
};
pub use model::{
    CatalogConfig, DetailedRelease, FetchError, MediaUnit, Release, ReleaseView, SearchResult,
    Track,
};
pub use query::{
    detail_url, detail_url_of, hex_digit, is_unreserved, percent_encoded, search_query,
    search_query_of, search_url, search_url_of,
};
pub use select::{
    date_key, is_dated, is_earliest, is_eligible, lemma_all_undated_picks_first,
    lemma_dated_release_preferred, lemma_earliest_unique, pick_earliest_official_release,
    release_views, str_lt,
};
