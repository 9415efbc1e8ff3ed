use vstd::prelude::*;
use crate::errors::BrokerError;

verus! {

/// The percent-encoded form of a query string.
pub uninterp spec fn url_encoded(s: Seq<char>) -> Seq<char>;

/// Relies on urlencoding::encode: percent-encodes every byte outside
/// A-Z, a-z, 0-9, '-', '.', '_' and '~'; the result depends on the input
/// characters alone, and an empty input stays empty.
#[verifier::external_body]
fn encode_component(s: &str) -> (r: String)
    ensures
        r@ == url_encoded(s@),
        s@.len() == 0 ==> r@.len() == 0,
{
    urlencoding::encode(s).into_owned()
}

/// The search request URL: the fixed endpoint followed by the
/// percent-encoded query.
pub open spec fn search_url_text(query: Seq<char>) -> Seq<char> {
    "https://html.duckduckgo.com/html/?q="@ + url_encoded(query)
}

/// Builds the search request URL for a query.
pub fn search_url(query: &str) -> (r: String)
    ensures
        r@ == search_url_text(query@),
{
    String::from_str("https://html.duckduckgo.com/html/?q=").concat(
        encode_component(query).as_str(),
    )
}

/// At most the first 1000 characters of a response body: the excerpt a web
/// search returns, however large the underlying page was.
pub fn search_excerpt(body: String) -> (r: String)
    ensures
        body@.len() <= 1000 ==> r@ == body@,
        body@.len() > 1000 ==> r@ == body@.subrange(0, 1000),
        r@.len() <= 1000,
{
    let len = body.as_str().unicode_len();
    if len <= 1000 {
        body
    } else {
        String::from_str(body.as_str().substring_char(0, 1000))
    }
}

/// The confirmation after a download, echoing the destination path.
pub fn download_confirmation(destination: &str) -> (r: String)
    ensures
        r@ == "Downloaded to: "@ + destination@,
{
    String::from_str("Downloaded to: ").concat(destination)
}

/// The error reported when the download transport failed.
pub fn download_failure(reason: String) -> (r: BrokerError)
    ensures
        (r matches BrokerError::NetworkError(m) && m@ == "Download failed: "@ + reason@),
{
    BrokerError::NetworkError(String::from_str("Download failed: ").concat(reason.as_str()))
}

/// The error reported when the search transport failed.
pub fn search_failure(reason: String) -> (r: BrokerError)
    ensures
        (r matches BrokerError::NetworkError(m) && m@ == "Search failed: "@ + reason@),
{
    BrokerError::NetworkError(String::from_str("Search failed: ").concat(reason.as_str()))
}

/// The error reported when a response body could not be read.
pub fn response_read_failure(reason: String) -> (r: BrokerError)
    ensures
        (r matches BrokerError::NetworkError(m) && m@ == "Failed to read response: "@ + reason@),
{
    BrokerError::NetworkError(String::from_str("Failed to read response: ").concat(reason.as_str()))
}

/// The error reported when a downloaded body could not be written out.
pub fn save_failure(reason: String) -> (r: BrokerError)
    ensures
        (r matches BrokerError::IoError(m) && m@ == "Failed to save file: "@ + reason@),
{
    BrokerError::IoError(String::from_str("Failed to save file: ").concat(reason.as_str()))
}

} // verus!
