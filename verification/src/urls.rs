//! URLs, as the `url` crate reads them.

use url::Url;
use vstd::prelude::*;
use vstd::string::*;

verus! {

/// Whether `url::Url::parse` accepts `input`.
pub uninterp spec fn url_parses(input: Seq<char>) -> bool;

/// The text of the URL that `input` denotes relative to the URL `base`, as
/// `url::Url::join` resolves it: nothing where `base` does not parse or
/// `input` cannot be resolved against it.
pub uninterp spec fn url_joined(base: Seq<char>, input: Seq<char>) -> Option<Seq<char>>;

/// Calls `url::Url::parse` and tells whether it succeeded. The contract
/// names the answer and claims nothing else.
#[verifier::external_body]
pub(crate) fn parses_as_url(input: &str) -> (ok: bool)
    ensures
        ok == url_parses(input@),
{
    Url::parse(input).is_ok()
}

/// Calls `url::Url::parse` on `base`, `Url::join` with `input` on the
/// result, and `Url::as_str` on what comes out. The contract names the
/// resulting text and claims nothing else.
#[verifier::external_body]
pub(crate) fn join_url(base: &str, input: &str) -> (joined: Option<String>)
    ensures
        match joined {
            Some(text) => url_joined(base@, input@) == Some(text@),
            None => url_joined(base@, input@) is None,
        },
{
    match Url::parse(base) {
        Ok(base) => match base.join(input) {
            Ok(url) => Some(String::from(url.as_str())),
            Err(_) => None,
        },
        Err(_) => None,
    }
}

} // verus!
