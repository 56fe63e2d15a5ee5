use gh_contrib::github::{Contributor, Owner, Repository};
use gh_contrib::github_client::{
    calc_most_contributing_percentage, check_status, get_top_contributor_percentage, ApiError,
};

fn c(login: &str, contributions: u32) -> Contributor {
    Contributor { login: login.to_string(), contributions }
}

fn repo(owner: &str, name: &str) -> Repository {
    Repository { name: name.to_string(), owner: Owner { login: owner.to_string() } }
}

#[test]
fn top_contributor_has_largest_share() {
    let r = calc_most_contributing_percentage(vec![c("A", 30), c("B", 50), c("C", 20)]).unwrap();
    assert_eq!(r.0, "B");
    assert_eq!(r.1, 50);
    assert_eq!(r.2, 100);
    assert_eq!(r.1 as f64 / r.2 as f64, 0.5);
}

#[test]
fn empty_list_gives_sentinel() {
    assert!(calc_most_contributing_percentage(vec![]).is_none());
    let res = get_top_contributor_percentage(&repo("o", "proj"), Ok(vec![])).unwrap();
    assert_eq!(res.repo, "proj");
    assert_eq!(res.username, "N/A");
    assert_eq!(res.contributions, 0);
    assert_eq!(res.total, 0);
}

#[test]
fn tie_goes_to_first_listed() {
    let r = calc_most_contributing_percentage(vec![c("A", 10), c("B", 10)]).unwrap();
    assert_eq!(r.0, "A");
    assert_eq!(r.1, 10);
    assert_eq!(r.2, 20);
}

#[test]
fn share_is_max_over_sum_and_at_most_one() {
    let r = calc_most_contributing_percentage(vec![c("x", 7), c("y", 3), c("z", 90), c("w", 0)]).unwrap();
    assert_eq!((r.0.as_str(), r.1, r.2), ("z", 90, 100));
    assert!((r.1 as u128) <= r.2);
    let single = calc_most_contributing_percentage(vec![c("solo", 4)]).unwrap();
    assert_eq!((single.0.as_str(), single.1, single.2), ("solo", 4, 4));
}

#[test]
fn sum_does_not_overflow_u32() {
    let r = calc_most_contributing_percentage(vec![c("a", u32::MAX), c("b", u32::MAX)]).unwrap();
    assert_eq!(r.0, "a");
    assert_eq!(r.2, 2 * (u32::MAX as u128));
}

#[test]
fn reduction_ignores_input_order() {
    let a = calc_most_contributing_percentage(vec![c("A", 30), c("B", 50), c("C", 20)]).unwrap();
    let b = calc_most_contributing_percentage(vec![c("C", 20), c("A", 30), c("B", 50)]).unwrap();
    let d = calc_most_contributing_percentage(vec![c("B", 50), c("C", 20), c("A", 30)]).unwrap();
    assert_eq!(a, b);
    assert_eq!(a, d);
}

#[test]
fn resolver_reports_repository_and_top() {
    let res = get_top_contributor_percentage(&repo("rust-lang", "rust"), Ok(vec![c("A", 1), c("B", 3)])).unwrap();
    assert_eq!(res.repo, "rust");
    assert_eq!(res.username, "B");
    assert_eq!(res.contributions, 3);
    assert_eq!(res.total, 4);
}

#[test]
fn resolver_passes_errors_on() {
    let res = get_top_contributor_percentage(&repo("o", "p"), Err(ApiError("boom".to_string())));
    assert_eq!(res.unwrap_err().0, "boom");
}

#[test]
fn status_ok_is_accepted() {
    assert!(check_status(200).is_ok());
}

#[test]
fn other_status_is_an_error_naming_it() {
    assert_eq!(check_status(404).unwrap_err().0, "Error calling API - response code: 404 Not Found");
    assert_eq!(check_status(201).unwrap_err().0, "Error calling API - response code: 201 Created");
    assert_eq!(check_status(422).unwrap_err().message(), "Error calling API - response code: 422 Unprocessable Entity");
}

#[test]
fn error_messages() {
    assert_eq!(ApiError::transport().0, "Error calling API");
    assert_eq!(ApiError::repos_decode().0, "Error deserializing repos data");
    assert_eq!(ApiError::contributors_decode().0, "Error deserializing contributors data");
}
