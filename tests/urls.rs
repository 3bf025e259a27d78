use missing_music::{detail_url, search_query, search_url, CatalogConfig};

fn config() -> CatalogConfig {
    CatalogConfig {
        host: "musicbrainz.org".to_string(),
        user_agent: "missing-music/0.1.0 ( randall@example.com )".to_string(),
    }
}

#[test]
fn query_quotes_album_and_artist() {
    assert_eq!(
        search_query("Abbey Road", "The Beatles"),
        "release:\"Abbey Road\" AND artist:\"The Beatles\" AND primarytype:album AND status:official"
    );
}

#[test]
fn query_keeps_embedded_quotes() {
    assert_eq!(
        search_query("a\"b", ""),
        "release:\"a\"b\" AND artist:\"\" AND primarytype:album AND status:official"
    );
}

#[test]
fn search_url_percent_encodes_query() {
    assert_eq!(
        search_url(&config(), "OK", "Me"),
        "https://musicbrainz.org/ws/2/release/?query=release%3A%22OK%22%20AND%20artist%3A%22Me%22%20AND%20primarytype%3Aalbum%20AND%20status%3Aofficial&fmt=json"
    );
}

#[test]
fn search_url_encodes_utf8_bytes() {
    let url = search_url(&config(), "Café", "x-_.~");
    assert!(url.contains("release%3A%22Caf%C3%A9%22"));
    assert!(url.contains("artist%3A%22x-_.~%22"));
}

#[test]
fn detail_url_for_plain_id() {
    assert_eq!(
        detail_url(&config(), "b84ee12a-09ef-421b-82de-0441a926375b"),
        "https://musicbrainz.org/ws/2/release/b84ee12a-09ef-421b-82de-0441a926375b?inc=recordings&fmt=json"
    );
}

#[test]
fn detail_url_escapes_path_characters() {
    assert_eq!(
        detail_url(&config(), "a/b?c"),
        "https://musicbrainz.org/ws/2/release/a%2Fb%3Fc?inc=recordings&fmt=json"
    );
}

#[test]
fn urls_follow_configured_host() {
    let c = CatalogConfig { host: "localhost:8080".to_string(), user_agent: String::new() };
    assert_eq!(
        detail_url(&c, "1"),
        "https://localhost:8080/ws/2/release/1?inc=recordings&fmt=json"
    );
}
