//! URLs, held as text in their normal form.

use vstd::prelude::*;

verus! {

/// The normal form of the URL that `input` writes, as the `url` crate
/// serialises it, or `None` where `input` is no absolute URL.
pub uninterp spec fn url_text(input: Seq<char>) -> Option<Seq<char>>;

/// Calls `http_types::Url::parse`, which is `url::Url::parse`, and takes the
/// serialisation out of the `Url` that it returns. The contract gives the
/// outcome its name and claims nothing more of it.
#[verifier::external_body]
pub(crate) fn normalize_url(input: &str) -> (url: Option<String>)
    ensures
        url.deep_view() == url_text(input@),
{
    match http_types::Url::parse(input) {
        Ok(url) => Some(String::from(url)),
        Err(_) => None,
    }
}

} // verus!
