use gh_contrib::github::{Contributor, Owner, PagedResult, Repository};
use gh_contrib::github_client::{ApiError, ContributionResult};
use gh_contrib::stream::{ContributionStream, Demand, PageDemand, RepositoryStream};

fn repo(owner: &str, name: &str) -> Repository {
    Repository { name: name.to_string(), owner: Owner { login: owner.to_string() } }
}

fn page(names: &[&str]) -> Result<PagedResult<Repository>, ApiError> {
    Ok(PagedResult {
        total_count: 1000,
        incomplete_results: false,
        items: names.iter().map(|n| repo("own", n)).collect(),
    })
}

fn contributors(top: &str) -> Result<Vec<Contributor>, ApiError> {
    Ok(vec![
        Contributor { login: "minor".to_string(), contributions: 1 },
        Contributor { login: top.to_string(), contributions: 3 },
    ])
}

#[derive(Debug, PartialEq)]
enum Call {
    Page(u64),
    Contributors(String, String),
}

/// Runs a stream against scripted responses: `pages[k]` answers page `k`,
/// and the contributors of a repository named in `failing` fail.
fn run(
    limit: usize,
    mut pages: Vec<Result<PagedResult<Repository>, ApiError>>,
    failing: &[&str],
) -> (Vec<Result<ContributionResult, ApiError>>, Vec<Call>) {
    pages.reverse();
    let mut s = ContributionStream::new(limit);
    let mut out = Vec::new();
    let mut calls = Vec::new();
    loop {
        match s.poll() {
            Demand::Finished => break,
            Demand::FetchPage(k) => {
                calls.push(Call::Page(k));
                let p = pages.pop().expect("no page scripted");
                if let Some(e) = s.on_page(p) {
                    out.push(Err(e));
                }
            }
            Demand::Resolve { owner, name } => {
                calls.push(Call::Contributors(owner.clone(), name.clone()));
                let fetched = if failing.contains(&name.as_str()) {
                    Err(ApiError(format!("failed {}", name)))
                } else {
                    contributors(&format!("top-{}", name))
                };
                out.push(s.on_contributors(fetched));
            }
        }
    }
    (out, calls)
}

fn names(out: &[Result<ContributionResult, ApiError>]) -> Vec<String> {
    out.iter()
        .map(|r| match r {
            Ok(c) => c.repo.clone(),
            Err(e) => format!("ERR {}", e.0),
        })
        .collect()
}

#[test]
fn page_failure_after_two_results() {
    let (out, calls) = run(10, vec![page(&["r0", "r1"]), Err(ApiError("status 500".to_string()))], &[]);
    assert_eq!(out.len(), 3);
    assert_eq!(names(&out), vec!["r0", "r1", "ERR status 500"]);
    assert_eq!(
        calls,
        vec![
            Call::Page(0),
            Call::Contributors("own".to_string(), "r0".to_string()),
            Call::Contributors("own".to_string(), "r1".to_string()),
            Call::Page(1),
        ]
    );
}

#[test]
fn page_failure_after_full_first_page() {
    let (out, calls) = run(10, vec![page(&["a", "b", "c"]), Err(ApiError("status 403".to_string()))], &[]);
    assert_eq!(names(&out), vec!["a", "b", "c", "ERR status 403"]);
    assert_eq!(calls.len(), 5);
    assert_eq!(calls[4], Call::Page(1));
}

#[test]
fn stops_at_limit_without_fetching_more() {
    let (out, calls) = run(3, vec![page(&["a", "b"]), page(&["c", "d"]), page(&["e"])], &[]);
    assert_eq!(names(&out), vec!["a", "b", "c"]);
    assert_eq!(calls.len(), 5);
    assert_eq!(calls.last(), Some(&Call::Contributors("own".to_string(), "c".to_string())));
    let first = out[0].as_ref().unwrap();
    assert_eq!((first.username.as_str(), first.contributions, first.total), ("top-a", 3, 4));
}

#[test]
fn limit_zero_yields_nothing() {
    let (out, calls) = run(0, vec![], &[]);
    assert!(out.is_empty());
    assert!(calls.is_empty());
}

#[test]
fn contributors_failure_ends_stream() {
    let (out, calls) = run(10, vec![page(&["a", "b", "c"])], &["b"]);
    assert_eq!(names(&out), vec!["a", "ERR failed b"]);
    assert_eq!(calls.len(), 3);
}

#[test]
fn results_follow_search_order_across_pages() {
    let (out, _) = run(5, vec![page(&["p0a", "p0b"]), page(&[]), page(&["p2a", "p2b", "p2c"])], &[]);
    assert_eq!(names(&out), vec!["p0a", "p0b", "p2a", "p2b", "p2c"]);
}

#[test]
fn first_page_failure_yields_single_error() {
    let (out, calls) = run(4, vec![Err(ApiError("down".to_string()))], &[]);
    assert_eq!(names(&out), vec!["ERR down"]);
    assert_eq!(calls, vec![Call::Page(0)]);
}

/// Runs a repository stream against scripted pages and returns what it
/// yields and the pages it asked for.
fn run_pages(mut pages: Vec<Result<PagedResult<Repository>, ApiError>>, pulls: usize) -> (Vec<String>, Vec<u64>) {
    pages.reverse();
    let mut s = RepositoryStream::new();
    let mut out = Vec::new();
    let mut asked = Vec::new();
    while out.len() < pulls {
        match s.poll() {
            PageDemand::Finished => break,
            PageDemand::Next(r) => out.push(r.name),
            PageDemand::FetchPage(k) => {
                asked.push(k);
                if let Some(e) = s.on_page(pages.pop().expect("no page scripted")) {
                    out.push(format!("ERR {}", e.0));
                }
            }
        }
    }
    (out, asked)
}

#[test]
fn repository_stream_flattens_pages_in_order() {
    let (out, asked) = run_pages(vec![page(&["a", "b"]), page(&[]), page(&["c"]), page(&["d", "e"])], 4);
    assert_eq!(out, vec!["a", "b", "c", "d"]);
    assert_eq!(asked, vec![0, 1, 2, 3]);
}

#[test]
fn repository_stream_fetches_lazily() {
    let (out, asked) = run_pages(vec![page(&["a", "b"]), page(&["c"])], 2);
    assert_eq!(out, vec!["a", "b"]);
    assert_eq!(asked, vec![0]);
}

#[test]
fn repository_stream_ends_after_failed_page() {
    let (out, asked) = run_pages(vec![page(&["a"]), Err(ApiError("bad".to_string()))], 10);
    assert_eq!(out, vec!["a", "ERR bad"]);
    assert_eq!(asked, vec![0, 1]);
}
