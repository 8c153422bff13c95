//! Well-formedness of the server URL: it must parse as an absolute URL, as
//! the `url` crate judges it, and it must name a host.

use vstd::prelude::*;

verus! {

/// What the `url` crate's parser makes of `text`: `None` where `text` does
/// not parse as an absolute URL, otherwise whether the parsed URL has a host.
/// Nothing is stated about which texts parse or which have a host; only that
/// the answer depends on the text alone.
pub uninterp spec fn parsed_url_host(text: Seq<char>) -> Option<bool>;

/// Whether a URL with this parse is fit for a server: it parsed, and it names
/// a host. A scheme followed by a bare path, as in `unix:/run/agent.socket`,
/// parses as an absolute URL but names no server to connect to.
pub open spec fn names_a_server(host: Option<bool>) -> bool {
    host == Some(true)
}

/// Whether `text` is a well-formed server URL.
pub open spec fn is_server_url(text: Seq<char>) -> bool {
    names_a_server(parsed_url_host(text))
}

/// Runs `url::Url::parse` on `text` and, where it returns `Ok`, asks the
/// parsed URL `url::Url::has_host`.
///
/// Trusted, not proved: the parser is outside code. The contract claims only
/// that the outcome is the one [`parsed_url_host`] names for this text; the
/// parsed URL itself is discarded.
#[verifier::external_body]
pub(crate) fn parse_url_host(text: &str) -> (host: Option<bool>)
    ensures
        host == parsed_url_host(text@),
{
    match url::Url::parse(text) {
        Ok(url) => Some(url.has_host()),
        Err(_) => None,
    }
}

/// Decides from the parse of a URL whether it is fit for a server.
pub fn url_names_a_server(host: Option<bool>) -> (well_formed: bool)
    ensures
        well_formed == names_a_server(host),
{
    match host {
        Some(has_host) => has_host,
        None => false,
    }
}

} // verus!
