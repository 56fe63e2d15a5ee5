//! The URLs and query parameters of the two calls the pipeline makes.
use vstd::prelude::*;

verus! {

/// Root of the REST API.
pub open spec fn api_root() -> Seq<char> {
    "https://api.github.com"@
}

/// The decimal text of `n`.
pub uninterp spec fn decimal_text(n: u64) -> Seq<char>;

/// Relies on the `ToString` of `u64` (its `Display`), which writes the number
/// in decimal.
#[verifier::external_body]
fn decimal(n: u64) -> (r: String)
    ensures
        r@ == decimal_text(n),
{
    n.to_string()
}

/// The number of contributors fetched for the analysis of one repository.
pub const CONTRIBUTORS_COUNT_FOR_ANALYSIS: u64 = 25;

/// A query parameter: its name and its value.
pub open spec fn param_view(p: (String, String)) -> (Seq<char>, Seq<char>) {
    (p.0@, p.1@)
}

fn param(name: &str, value: String) -> (r: (String, String))
    ensures
        r.0@ == name@,
        r.1@ == value@,
{
    (String::from_str(name), value)
}

/// The URL of the repository search.
pub fn search_url() -> (r: String)
    ensures
        r@ == api_root() + "/search/repositories"@,
{
    let mut url = String::from_str("https://api.github.com");
    url.append("/search/repositories");
    url
}

/// The query of the search for repositories in `lang`, by stars descending,
/// page `page` (passed on as it is).
pub fn search_params(lang: &str, page: u64) -> (r: Vec<(String, String)>)
    ensures
        r@.map_values(|p: (String, String)| param_view(p)) == seq![
            ("q"@, "language:"@ + lang@),
            ("sort"@, "stars"@),
            ("o"@, "desc"@),
            ("page"@, decimal_text(page)),
        ],
{
    let mut q = String::from_str("language:");
    q.append(lang);
    let mut r: Vec<(String, String)> = Vec::new();
    r.push(param("q", q));
    r.push(param("sort", String::from_str("stars")));
    r.push(param("o", String::from_str("desc")));
    r.push(param("page", decimal(page)));
    assert(r@.map_values(|p: (String, String)| param_view(p)) =~= seq![
        ("q"@, "language:"@ + lang@),
        ("sort"@, "stars"@),
        ("o"@, "desc"@),
        ("page"@, decimal_text(page)),
    ]);
    r
}

/// The URL of the contributor list of the repository `name` of `owner`.
pub fn contributors_url(owner: &str, name: &str) -> (r: String)
    ensures
        r@ == api_root() + "/repos/"@ + owner@ + "/"@ + name@ + "/contributors"@,
{
    let mut url = String::from_str("https://api.github.com");
    url.append("/repos/");
    url.append(owner);
    url.append("/");
    url.append(name);
    url.append("/contributors");
    url
}

/// The query of the contributor list: the first 25 contributors by number of
/// contributions, descending.
pub fn contributors_params() -> (r: Vec<(String, String)>)
    ensures
        r@.map_values(|p: (String, String)| param_view(p)) == seq![
            ("sort"@, "contributions"@),
            ("o"@, "desc"@),
            ("per_page"@, decimal_text(CONTRIBUTORS_COUNT_FOR_ANALYSIS)),
        ],
{
    let mut r: Vec<(String, String)> = Vec::new();
    r.push(param("sort", String::from_str("contributions")));
    r.push(param("o", String::from_str("desc")));
    r.push(param("per_page", decimal(CONTRIBUTORS_COUNT_FOR_ANALYSIS)));
    assert(r@.map_values(|p: (String, String)| param_view(p)) =~= seq![
        ("sort"@, "contributions"@),
        ("o"@, "desc"@),
        ("per_page"@, decimal_text(CONTRIBUTORS_COUNT_FOR_ANALYSIS)),
    ]);
    r
}

} // verus!
