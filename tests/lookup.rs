use missing_music::{
    after_detail, after_search, track_titles, tracks_of_first_media, CatalogConfig,
    DetailedRelease, FetchError, LookupOutcome, MediaUnit, Release, SearchResult, SearchStep,
    Track,
};

fn config() -> CatalogConfig {
    CatalogConfig { host: "musicbrainz.org".to_string(), user_agent: "agent".to_string() }
}

fn rel(title: &str, id: &str, date: Option<&str>) -> Release {
    Release {
        title: title.to_string(),
        id: id.to_string(),
        release_date: date.map(|d| d.to_string()),
    }
}

fn tracks(titles: &[&str]) -> Vec<Track> {
    titles.iter().map(|t| Track { title: t.to_string() }).collect()
}

#[test]
fn search_reply_picks_earliest_and_asks_for_its_tracks() {
    let found = SearchResult {
        releases: vec![rel("A", "1", Some("1999-01-01")), rel("B", "2", Some("1995-06-01"))],
    };
    match after_search(&config(), Ok(found)) {
        SearchStep::FetchTracks { release, url } => {
            assert_eq!(release.title, "B");
            assert_eq!(url, "https://musicbrainz.org/ws/2/release/2?inc=recordings&fmt=json");
        }
        other => panic!("unexpected step {:?}", other),
    }
}

#[test]
fn empty_search_reply_means_no_official_release() {
    let step = after_search(&config(), Ok(SearchResult { releases: vec![] }));
    assert_eq!(step, SearchStep::Done(Ok(LookupOutcome::NoOfficialRelease)));
}

#[test]
fn failed_search_ends_lookup() {
    assert_eq!(
        after_search(&config(), Err(FetchError::Transport)),
        SearchStep::Done(Err(FetchError::Transport))
    );
    assert_eq!(
        after_search(&config(), Err(FetchError::Decode)),
        SearchStep::Done(Err(FetchError::Decode))
    );
}

#[test]
fn detail_reply_gives_ordered_titles() {
    let detail = DetailedRelease {
        media: vec![MediaUnit { tracks: Some(tracks(&["Song1", "Song2"])) }],
    };
    let outcome = after_detail(&rel("B", "2", Some("1995-06-01")), Ok(detail));
    assert_eq!(
        outcome,
        Ok(LookupOutcome::Tracks {
            title: "B".to_string(),
            tracks: vec!["Song1".to_string(), "Song2".to_string()],
        })
    );
}

#[test]
fn only_first_media_unit_is_read() {
    let detail = DetailedRelease {
        media: vec![
            MediaUnit { tracks: Some(tracks(&["One"])) },
            MediaUnit { tracks: Some(tracks(&["Two", "Three"])) },
        ],
    };
    assert_eq!(tracks_of_first_media(detail), Some(tracks(&["One"])));
}

#[test]
fn no_media_gives_no_tracks() {
    assert_eq!(tracks_of_first_media(DetailedRelease { media: vec![] }), None);
    let outcome = after_detail(&rel("T", "1", None), Ok(DetailedRelease { media: vec![] }));
    assert_eq!(outcome, Ok(LookupOutcome::NoTrackData { title: "T".to_string() }));
}

#[test]
fn media_without_tracks_gives_no_tracks() {
    let detail = DetailedRelease { media: vec![MediaUnit { tracks: None }] };
    assert_eq!(tracks_of_first_media(detail), None);
    let detail = DetailedRelease {
        media: vec![MediaUnit { tracks: None }, MediaUnit { tracks: Some(tracks(&["X"])) }],
    };
    let outcome = after_detail(&rel("T", "1", None), Ok(detail));
    assert_eq!(outcome, Ok(LookupOutcome::NoTrackData { title: "T".to_string() }));
}

#[test]
fn empty_track_list_is_kept() {
    let detail = DetailedRelease { media: vec![MediaUnit { tracks: Some(vec![]) }] };
    assert_eq!(tracks_of_first_media(detail), Some(vec![]));
}

#[test]
fn failed_detail_fetch_ends_lookup() {
    assert_eq!(after_detail(&rel("T", "1", None), Err(FetchError::Decode)), Err(FetchError::Decode));
    assert_eq!(
        after_detail(&rel("T", "1", None), Err(FetchError::Transport)),
        Err(FetchError::Transport)
    );
}

#[test]
fn titles_follow_track_order() {
    let ts = tracks(&["c", "a", "b"]);
    assert_eq!(track_titles(&ts), vec!["c".to_string(), "a".to_string(), "b".to_string()]);
    assert_eq!(ts[0].clone(), Track { title: "c".to_string() });
}
