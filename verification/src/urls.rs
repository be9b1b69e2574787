//! The endpoint URLs, reproduced verbatim as the remote API's contract
//! requires: search with an optional facet fragment, project detail, and
//! the loader/version-filtered version list.
use vstd::prelude::*;

use crate::facet::build_facet;
use crate::facet::facet_string;

verus! {

/// What `str::trim` leaves of a text; a function of the characters alone.
pub uninterp spec fn trim_of(s: Seq<char>) -> Seq<char>;

/// Relies on `str::trim`: removes leading and trailing whitespace, so the
/// result is never longer than the input and an empty input stays empty.
#[verifier::external_body]
fn trim(s: &str) -> (r: String)
    ensures
        r@ == trim_of(s@),
        r@.len() <= s@.len(),
{
    s.trim().to_owned()
}

/// The search URL: the trimmed query text, then the facet fragment when a
/// category filter was given.
pub open spec fn spec_search_url(
    query: Seq<char>,
    version: Seq<char>,
    categories: Seq<Seq<char>>,
) -> Seq<char> {
    "https://api.modrinth.com/v2/search?query="@ + trim_of(query) + (
    if categories.len() == 0 {
        Seq::<char>::empty()
    } else {
        facet_string(categories, version)
    })
}

/// Builds the search URL from the raw query, version and category filter.
pub fn search_url(query: &str, game_version: &str, categories: Vec<String>) -> (r: String)
    ensures
        r@ == spec_search_url(query@, game_version@, categories.deep_view()),
{
    let ghost cats: Seq<Seq<char>> = categories.deep_view();
    let facet = build_facet(categories, game_version);
    let mut url = String::from_str("https://api.modrinth.com/v2/search?query=");
    let trimmed = trim(query);
    url.append(trimmed.as_str());
    url.append(facet.as_str());
    proof {
        assert(url@ =~= spec_search_url(query@, game_version@, cats));
    }
    url
}

/// The project-detail URL for a slug or an opaque project id.
pub open spec fn spec_project_url(project: Seq<char>) -> Seq<char> {
    "https://api.modrinth.com/v2/project/"@ + project
}

/// Builds the project-detail URL.
pub fn project_url(project: &str) -> (r: String)
    ensures
        r@ == spec_project_url(project@),
{
    let mut url = String::from_str("https://api.modrinth.com/v2/project/");
    url.append(project);
    proof {
        assert(url@ =~= spec_project_url(project@));
    }
    url
}

/// The version-list URL, with loader and game version embedded as
/// single-element JSON-array literals, not URL-encoded.
pub open spec fn spec_version_list_url(
    project: Seq<char>,
    loader: Seq<char>,
    version: Seq<char>,
) -> Seq<char> {
    "https://api.modrinth.com/v2/project/"@ + project + "/version?loader=[\""@ + loader
        + "\"]&game_versions=[\""@ + version + "\"]"@
}

/// Builds the version-list URL.
pub fn version_list_url(project: &str, loader: &str, game_version: &str) -> (r: String)
    ensures
        r@ == spec_version_list_url(project@, loader@, game_version@),
{
    let mut url = String::from_str("https://api.modrinth.com/v2/project/");
    url.append(project);
    url.append("/version?loader=[\"");
    url.append(loader);
    url.append("\"]&game_versions=[\"");
    url.append(game_version);
    url.append("\"]");
    proof {
        assert(url@ =~= spec_version_list_url(project@, loader@, game_version@));
    }
    url
}

} // verus!
