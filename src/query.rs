use vstd::prelude::*;
use vstd::string::StringExecFns;
use vstd::utf8::encode_utf8;
use crate::model::CatalogConfig;

verus! {

/// The search expression for an album by an artist: both values are quoted
/// as given, without escaping quote characters inside them.
pub open spec fn search_query_of(album: Seq<char>, artist: Seq<char>) -> Seq<char> {
    "release:\""@ + album + "\" AND artist:\""@ + artist
        + "\" AND primarytype:album AND status:official"@
}

/// A byte that percent-encoding keeps as it is: an ASCII letter or digit, or
/// one of `-`, `.`, `_`, `~`.
pub open spec fn is_unreserved(b: u8) -> bool {
    (48 <= b <= 57) || (65 <= b <= 90) || (97 <= b <= 122) || b == 45 || b == 46 || b == 95
        || b == 126
}

/// The upper-case hexadecimal digit of `d` (`d < 16`).
pub open spec fn hex_digit(d: u8) -> char {
    seq!['0', '1', '2', '3', '4', '5', '6', '7', '8', '9', 'A', 'B', 'C', 'D', 'E', 'F'][d as int]
}

/// Percent-encoding of a byte string: each unreserved byte stands for itself,
/// every other byte becomes `%` and its two upper-case hex digits.
pub open spec fn percent_encoded(bytes: Seq<u8>) -> Seq<char>
    decreases bytes.len(),
{
    if bytes.len() == 0 {
        Seq::empty()
    } else {
        let b = bytes[0];
        let head = if is_unreserved(b) {
            seq![b as char]
        } else {
            seq!['%', hex_digit(b / 16), hex_digit(b % 16)]
        };
        head + percent_encoded(bytes.drop_first())
    }
}

/// The release-search URL for an album by an artist.
pub open spec fn search_url_of(host: Seq<char>, album: Seq<char>, artist: Seq<char>) -> Seq<char> {
    "https://"@ + host + "/ws/2/release/?query="@ + percent_encoded(
        encode_utf8(search_query_of(album, artist)),
    ) + "&fmt=json"@
}

/// The release-detail URL, with recordings included, for a release id.
pub open spec fn detail_url_of(host: Seq<char>, release_id: Seq<char>) -> Seq<char> {
    "https://"@ + host + "/ws/2/release/"@ + percent_encoded(encode_utf8(release_id))
        + "?inc=recordings&fmt=json"@
}

/// Relies on urlencoding::encode: it percent-encodes every byte of the
/// string's UTF-8 encoding except ASCII letters, digits and `-`, `.`, `_`,
/// `~`, writing `%` and two upper-case hex digits.
#[verifier::external_body]
fn percent_encode(s: &str) -> (r: String)
    ensures
        r@ == percent_encoded(encode_utf8(s@)),
{
    urlencoding::encode(s).into_owned()
}

/// Builds the catalog search expression for an album by an artist.
pub fn search_query(album: &str, artist: &str) -> (r: String)
    ensures
        r@ == search_query_of(album@, artist@),
{
    let mut q = String::new();
    q.append("release:\"");
    q.append(album);
    q.append("\" AND artist:\"");
    q.append(artist);
    q.append("\" AND primarytype:album AND status:official");
    assert(q@ =~= search_query_of(album@, artist@));
    q
}

/// The URL that searches the catalog for an album by an artist.
pub fn search_url(config: &CatalogConfig, album: &str, artist: &str) -> (r: String)
    ensures
        r@ == search_url_of(config.host@, album@, artist@),
{
    let query = search_query(album, artist);
    let encoded = percent_encode(query.as_str());
    let mut url = String::new();
    url.append("https://");
    url.append(config.host.as_str());
    url.append("/ws/2/release/?query=");
    url.append(encoded.as_str());
    url.append("&fmt=json");
    assert(url@ =~= search_url_of(config.host@, album@, artist@));
    url
}

/// The URL of a release's detail record, tracks included. The id is
/// percent-encoded so that it stays one path segment.
pub fn detail_url(config: &CatalogConfig, release_id: &str) -> (r: String)
    ensures
        r@ == detail_url_of(config.host@, release_id@),
{
    let encoded = percent_encode(release_id);
    let mut url = String::new();
    url.append("https://");
    url.append(config.host.as_str());
    url.append("/ws/2/release/");
    url.append(encoded.as_str());
    url.append("?inc=recordings&fmt=json");
    assert(url@ =~= detail_url_of(config.host@, release_id@));
    url
}

} // verus!
