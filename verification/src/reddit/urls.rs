//! What the `url` crate reads from, and writes into, an address.

use vstd::prelude::*;

verus! {

/// The host of an address: `None` where the text is no absolute URL, or is one
/// without a host.
pub uninterp spec fn url_host(url: Seq<char>) -> Option<Seq<char>>;

/// The path of an address: `None` where the text is no absolute URL.
pub uninterp spec fn url_path(url: Seq<char>) -> Option<Seq<char>>;

/// An address with its host replaced: `None` where the text is no absolute URL
/// or the host cannot be set on it.
pub uninterp spec fn url_with_host(url: Seq<char>, host: Seq<char>) -> Option<Seq<char>>;

/// Parses `url` with `url::Url::parse` and reads `Url::host_str`. Nothing is
/// proved of the result: it is what the crate returns, named `url_host`.
#[verifier::external_body]
pub(crate) fn host_of(url: &str) -> (r: Option<String>)
    ensures
        r is Some == url_host(url@) is Some,
        r is Some ==> r->0@ == url_host(url@)->0,
{
    match url::Url::parse(url) {
        Ok(parsed) => parsed.host_str().map(|host| host.to_string()),
        Err(_) => None,
    }
}

/// Parses `url` with `url::Url::parse` and reads `Url::path`. Nothing is proved
/// of the result: it is what the crate returns, named `url_path`.
#[verifier::external_body]
pub(crate) fn path_of(url: &str) -> (r: Option<String>)
    ensures
        r is Some == url_path(url@) is Some,
        r is Some ==> r->0@ == url_path(url@)->0,
{
    match url::Url::parse(url) {
        Ok(parsed) => Some(parsed.path().to_string()),
        Err(_) => None,
    }
}

/// Parses `url` with `url::Url::parse`, replaces its host with `Url::set_host`
/// and writes it out again. Nothing is proved of the result: it is what the
/// crate returns, named `url_with_host`.
#[verifier::external_body]
pub(crate) fn with_host(url: &str, host: &str) -> (r: Option<String>)
    ensures
        r is Some == url_with_host(url@, host@) is Some,
        r is Some ==> r->0@ == url_with_host(url@, host@)->0,
{
    match url::Url::parse(url) {
        Ok(mut parsed) => match parsed.set_host(Some(host)) {
            Ok(()) => Some(parsed.to_string()),
            Err(_) => None,
        },
        Err(_) => None,
    }
}

} // verus!
