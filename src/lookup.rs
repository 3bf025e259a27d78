use vstd::prelude::*;
use crate::model::{CatalogConfig, DetailedRelease, FetchError, Release, SearchResult, Track};
use crate::query::{detail_url, detail_url_of};
use crate::select::{is_earliest, pick_earliest_official_release, release_views};

verus! {

/// How a lookup ended, when it did not fail.
#[derive(Debug, PartialEq, Eq)]
pub enum LookupOutcome {
    /// The search found no candidate release.
    NoOfficialRelease,
    /// A release was chosen, but its detail record lists no tracks.
    NoTrackData { title: String },
    /// The chosen release's title and its track titles, in catalog order.
    Tracks { title: String, tracks: Vec<String> },
}

/// What to do after the search reply.
#[derive(Debug, PartialEq, Eq)]
pub enum SearchStep {
    /// The lookup is over.
    Done(Result<LookupOutcome, FetchError>),
    /// Fetch the detail record at `url` for the chosen `release`.
    FetchTracks { release: Release, url: String },
}

/// The track list of a detail record: that of its first media unit, if the
/// record has media and that unit lists tracks.
pub open spec fn first_media_tracks(d: DetailedRelease) -> Option<Seq<Track>> {
    if d.media@.len() == 0 {
        None
    } else {
        match d.media@[0].tracks {
            Some(v) => Some(v@),
            None => None,
        }
    }
}

/// The titles of a sequence of tracks, in order.
pub open spec fn titles_of(ts: Seq<Track>) -> Seq<Seq<char>> {
    ts.map_values(|t: Track| t.title@)
}

/// Takes the track list out of a release's detail record. Only the first
/// media unit is consulted; later discs are ignored.
pub fn tracks_of_first_media(detail: DetailedRelease) -> (r: Option<Vec<Track>>)
    ensures
        match r {
            Some(v) => first_media_tracks(detail) == Some(v@),
            None => first_media_tracks(detail) is None,
        },
{
    let mut media = detail.media;
    if media.len() == 0 {
        None
    } else {
        let first = media.swap_remove(0);
        first.tracks
    }
}

/// The titles of `tracks`, in order.
pub fn track_titles(tracks: &Vec<Track>) -> (r: Vec<String>)
    ensures
        r@.map_values(|s: String| s@) == titles_of(tracks@),
{
    let mut titles: Vec<String> = Vec::new();
    let mut i: usize = 0;
    while i < tracks.len()
        invariant
            i <= tracks@.len(),
            titles@.len() == i,
            forall|j: int| 0 <= j < i ==> titles@[j]@ == tracks@[j].title@,
        decreases tracks@.len() - i,
    {
        titles.push(tracks[i].title.clone());
        i = i + 1;
    }
    assert(titles@.map_values(|s: String| s@) =~= titles_of(tracks@));
    titles
}

/// Decides the lookup's next step from the search reply: a failed search
/// ends it with that error, an empty candidate list ends it with
/// [`LookupOutcome::NoOfficialRelease`], and otherwise the earliest official
/// release is chosen and its detail record is to be fetched.
pub fn after_search(config: &CatalogConfig, reply: Result<SearchResult, FetchError>) -> (r:
    SearchStep)
    ensures
        match reply {
            Err(e) => r == SearchStep::Done(Err(e)),
            Ok(found) => if found.releases@.len() == 0 {
                r == SearchStep::Done(Ok(LookupOutcome::NoOfficialRelease))
            } else {
                r matches SearchStep::FetchTracks { release, url } && url@ == detail_url_of(
                    config.host@,
                    release.id@,
                ) && exists|i: int|
                    is_earliest(release_views(found.releases@), i) && release
                        == found.releases@[i]
            },
        },
{
    match reply {
        Err(e) => SearchStep::Done(Err(e)),
        Ok(found) => match pick_earliest_official_release(found.releases.as_slice()) {
            None => SearchStep::Done(Ok(LookupOutcome::NoOfficialRelease)),
            Some(release) => {
                let url = detail_url(config, release.id.as_str());
                SearchStep::FetchTracks { release, url }
            },
        },
    }
}

/// Ends the lookup from the detail reply for the chosen `release`: a failed
/// fetch ends it with that error, a record without tracks in its first media
/// unit with [`LookupOutcome::NoTrackData`], and otherwise with the release's
/// title and the track titles in order.
pub fn after_detail(release: &Release, reply: Result<DetailedRelease, FetchError>) -> (r: Result<
    LookupOutcome,
    FetchError,
>)
    ensures
        match reply {
            Err(e) => r == Err::<LookupOutcome, FetchError>(e),
            Ok(d) => match first_media_tracks(d) {
                None => r == Ok::<LookupOutcome, FetchError>(
                    LookupOutcome::NoTrackData { title: release.title },
                ),
                Some(ts) => r matches Ok(LookupOutcome::Tracks { title, tracks }) && title
                    == release.title && tracks@.map_values(|s: String| s@) == titles_of(ts),
            },
        },
{
    match reply {
        Err(e) => Err(e),
        Ok(d) => match tracks_of_first_media(d) {
            None => Ok(LookupOutcome::NoTrackData { title: release.title.clone() }),
            Some(ts) => Ok(
                LookupOutcome::Tracks { title: release.title.clone(), tracks: track_titles(&ts) },
            ),
        },
    }
}

} // verus!
