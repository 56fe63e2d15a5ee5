//! Records decoded from the search and contributors endpoints.
use vstd::prelude::*;

verus! {

/// One contributor of a repository, with the number of its contributions.
#[derive(Debug)]
pub struct Contributor {
    pub login: String,
    pub contributions: u32,
}

/// The account that owns a repository.
#[derive(Debug)]
pub struct Owner {
    pub login: String,
}

/// One repository of a search result, identified by its owner and name.
#[derive(Debug)]
pub struct Repository {
    pub name: String,
    pub owner: Owner,
}

/// One page of a paginated result; `items` keeps the order the server ranked them in.
#[derive(Debug)]
pub struct PagedResult<T> {
    pub total_count: u32,
    pub incomplete_results: bool,
    pub items: Vec<T>,
}

} // verus!
