use vstd::prelude::*;

verus! {

/// One catalog entry that matched a search query.
#[derive(Debug, PartialEq, Eq)]
pub struct Release {
    pub title: String,
    /// Opaque catalog identifier, only ever embedded in a detail URL.
    pub id: String,
    /// Release date as the catalog spells it (`YYYY[-MM[-DD]]`), if known.
    pub release_date: Option<String>,
}

/// Mathematical model of a [`Release`].
pub struct ReleaseView {
    pub title: Seq<char>,
    pub id: Seq<char>,
    pub date: Option<Seq<char>>,
}

impl View for Release {
    type V = ReleaseView;

    open spec fn view(&self) -> ReleaseView {
        ReleaseView {
            title: self.title@,
            id: self.id@,
            date: match self.release_date {
                Some(d) => Some(d@),
                None => None,
            },
        }
    }
}

impl Clone for Release {
    fn clone(&self) -> (r: Self)
        ensures
            r == *self,
    {
        let release_date = match &self.release_date {
            Some(d) => Some(d.clone()),
            None => None,
        };
        Release { title: self.title.clone(), id: self.id.clone(), release_date }
    }
}

/// One search response: the candidates in the catalog's order.
#[derive(Debug, PartialEq, Eq)]
pub struct SearchResult {
    pub releases: Vec<Release>,
}

/// One playable item of a release.
#[derive(Debug, PartialEq, Eq)]
pub struct Track {
    pub title: String,
}

impl Clone for Track {
    fn clone(&self) -> (r: Self)
        ensures
            r == *self,
    {
        Track { title: self.title.clone() }
    }
}

/// One disc or side of a release.
#[derive(Debug, PartialEq, Eq)]
pub struct MediaUnit {
    pub tracks: Option<Vec<Track>>,
}

/// The detail record of one release.
#[derive(Debug, PartialEq, Eq)]
pub struct DetailedRelease {
    pub media: Vec<MediaUnit>,
}

/// Why a lookup could not complete.
#[derive(Debug, Clone, Copy, PartialEq, Eq, Structural)]
pub enum FetchError {
    /// The catalog could not be reached.
    Transport,
    /// The catalog answered with an error status or a body of the wrong shape.
    Decode,
}

/// Where the catalog lives and how this client identifies itself to it.
#[derive(Debug)]
pub struct CatalogConfig {
    /// Host name of the catalog, e.g. `musicbrainz.org`.
    pub host: String,
    /// Value of the `User-Agent` header that the catalog requires.
    pub user_agent: String,
}

} // verus!
