//! Classification of responses and the reduction of a contributor list to
//! its top contributor.
use vstd::prelude::*;
use vstd::seq_lib::group_to_multiset_ensures;
use crate::github::{Contributor, Repository};

verus! {

/// A failed remote call, with a message that says which call failed and why.
#[derive(Debug)]
pub struct ApiError(pub String);

/// The analysis of one repository: its top contributor and that contributor's
/// share, `contributions / total`, of the fetched contributions.
///
/// A repository without contributors gets the placeholder login `N/A` and a
/// share of zero (`contributions == 0`, `total == 0`).
#[derive(Debug)]
pub struct ContributionResult {
    pub repo: String,
    pub username: String,
    pub contributions: u32,
    pub total: u128,
}

/// Sum of the contribution counts of `cs`.
pub open spec fn total_of(cs: Seq<Contributor>) -> int
    decreases cs.len(),
{
    if cs.len() == 0 {
        0
    } else {
        total_of(cs.drop_last()) + cs.last().contributions
    }
}

/// `i` is the first position of `cs` that holds the largest contribution
/// count: the contributor that a stable sort by descending count puts first.
pub open spec fn is_top(cs: Seq<Contributor>, i: int) -> bool {
    &&& 0 <= i < cs.len()
    &&& forall|j: int| 0 <= j < cs.len() ==> #[trigger] cs[j].contributions <= cs[i].contributions
    &&& forall|j: int| 0 <= j < i ==> #[trigger] cs[j].contributions < cs[i].contributions
}

/// The placeholder login of a repository without contributors.
pub open spec fn placeholder_login() -> Seq<char> {
    seq!['N', '/', 'A']
}

proof fn lemma_total_bounds(cs: Seq<Contributor>)
    ensures
        0 <= total_of(cs) <= cs.len() * 0xFFFF_FFFF,
        forall|j: int| 0 <= j < cs.len() ==> #[trigger] cs[j].contributions <= total_of(cs),
    decreases cs.len(),
{
    if cs.len() > 0 {
        lemma_total_bounds(cs.drop_last());
        assert forall|j: int| 0 <= j < cs.len() implies #[trigger] cs[j].contributions <= total_of(cs) by {
            if j < cs.len() - 1 {
                assert(cs.drop_last()[j] == cs[j]);
            }
        }
    }
}

/// Reduces a contributor list to the login and count of its top contributor
/// (the first one with the largest count) and the sum of all counts; `None`
/// for an empty list.
pub fn calc_most_contributing_percentage(data: Vec<Contributor>) -> (r: Option<(String, u32, u128)>)
    ensures
        r is None <==> data@.len() == 0,
        r matches Some(t) ==> exists|i: int|
            is_top(data@, i) && t.0@ == data@[i].login@ && t.1 == data@[i].contributions,
        r matches Some(t) ==> t.2 == total_of(data@),
{
    if data.len() == 0 {
        return None;
    }
    let n = data.len();
    let mut best: usize = 0;
    let mut total: u128 = data[0].contributions as u128;
    let mut i: usize = 1;
    assert(data@.take(1).drop_last() =~= data@.take(0));
    assert(data@.take(1).last() == data@[0]);
    assert(total_of(data@.take(0)) == 0);
    while i < n
        invariant
            n == data@.len(),
            1 <= i <= n,
            is_top(data@.take(i as int), best as int),
            total == total_of(data@.take(i as int)),
        decreases n - i,
    {
        let c = data[i].contributions;
        let ghost pre = data@.take(i as int);
        let ghost post = data@.take(i as int + 1);
        assert(post.drop_last() =~= pre);
        proof {
            lemma_total_bounds(post);
            assert(i + 1 <= usize::MAX + 1);
            assert((i + 1) * 0xFFFF_FFFF <= 0x1_0000_0000_0000_0000 * 0xFFFF_FFFFint) by (nonlinear_arith)
                requires i + 1 <= 0x1_0000_0000_0000_0000int;
        }
        total = total + c as u128;
        if c > data[best].contributions {
            best = i;
        }
        assert(forall|j: int| 0 <= j < i ==> pre[j] == #[trigger] post[j]);
        i = i + 1;
    }
    assert(data@.take(n as int) =~= data@);
    Some((data[best].login.clone(), data[best].contributions, total))
}

/// `c` is the analysis of `repo` from its fetched contributor list `cs`.
pub open spec fn analysis_of(repo: Repository, cs: Seq<Contributor>, c: ContributionResult) -> bool {
    &&& c.repo@ == repo.name@
    &&& cs.len() == 0 ==> c.username@ == placeholder_login() && c.contributions == 0 && c.total == 0
    &&& cs.len() > 0 ==> exists|i: int|
        is_top(cs, i) && c.username@ == cs[i].login@ && c.contributions == cs[i].contributions
            && c.total == total_of(cs)
}

/// Turns the outcome of a contributors request for `repo` into the
/// repository's analysis; a failed request is handed on unchanged.
pub fn get_top_contributor_percentage(repo: &Repository, fetched: Result<Vec<Contributor>, ApiError>) -> (r: Result<ContributionResult, ApiError>)
    ensures
        r is Ok <==> fetched is Ok,
        r matches Err(e) ==> fetched == Err::<Vec<Contributor>, ApiError>(e),
        r matches Ok(c) ==> analysis_of(*repo, fetched->Ok_0@, c),
{
    match fetched {
        Err(e) => Err(e),
        Ok(data) => {
            let ghost cs = data@;
            let name = repo.name.clone();
            match calc_most_contributing_percentage(data) {
                Some((login, top, total)) => Ok(ContributionResult { repo: name, username: login, contributions: top, total }),
                None => {
                    let placeholder = String::from_str("N/A");
                    proof {
                        reveal_strlit("N/A");
                        assert(placeholder@ =~= placeholder_login());
                    }
                    Ok(ContributionResult { repo: name, username: placeholder, contributions: 0, total: 0 })
                },
            }
        },
    }
}

/// The text of an HTTP status: its code and canonical reason.
pub uninterp spec fn status_line(code: u16) -> Seq<char>;

/// Relies on reqwest::StatusCode::from_u16, which accepts 100..=999, and on
/// its Display impl for the text of the status.
#[verifier::external_body]
fn status_text(code: u16) -> (r: String)
    requires
        100 <= code <= 999,
    ensures
        r@ == status_line(code),
{
    match reqwest::StatusCode::from_u16(code) {
        Ok(status) => status.to_string(),
        Err(_) => String::new(),
    }
}

/// Message of a request that could not be sent or got no response.
pub open spec fn transport_message() -> Seq<char> {
    "Error calling API"@
}

/// Message of a response whose status is not `200 OK`.
pub open spec fn status_message(code: u16) -> Seq<char> {
    "Error calling API - response code: "@ + status_line(code)
}

/// Message of a search page whose body could not be decoded.
pub open spec fn repos_decode_message() -> Seq<char> {
    "Error deserializing repos data"@
}

/// Message of a contributor list whose body could not be decoded.
pub open spec fn contributors_decode_message() -> Seq<char> {
    "Error deserializing contributors data"@
}

impl ApiError {
    /// The error of a request that could not be sent or got no response.
    pub fn transport() -> (e: ApiError)
        ensures
            e.0@ == transport_message(),
    {
        ApiError(String::from_str("Error calling API"))
    }

    /// The error of a search page that could not be decoded.
    pub fn repos_decode() -> (e: ApiError)
        ensures
            e.0@ == repos_decode_message(),
    {
        ApiError(String::from_str("Error deserializing repos data"))
    }

    /// The error of a contributor list that could not be decoded.
    pub fn contributors_decode() -> (e: ApiError)
        ensures
            e.0@ == contributors_decode_message(),
    {
        ApiError(String::from_str("Error deserializing contributors data"))
    }

    /// The message carried by the error.
    pub fn message(&self) -> (r: String)
        ensures
            r@ == self.0@,
    {
        self.0.clone()
    }
}

/// Accepts a response status of `200 OK` and turns any other into an error
/// that names the status.
pub fn check_status(code: u16) -> (r: Result<(), ApiError>)
    requires
        100 <= code <= 999,
    ensures
        r is Ok <==> code == 200,
        r matches Err(e) ==> e.0@ == status_message(code),
{
    if code == 200 {
        Ok(())
    } else {
        let mut msg = String::from_str("Error calling API - response code: ");
        let text = status_text(code);
        msg.append(text.as_str());
        Err(ApiError(msg))
    }
}

/// Every non-empty contributor list has a top contributor; its count is the
/// largest of the list and at most the sum of all counts, so the share
/// `max / sum` lies between 0 and 1.
pub proof fn lemma_share_is_max_over_sum(cs: Seq<Contributor>)
    requires
        cs.len() > 0,
    ensures
        exists|i: int| is_top(cs, i),
        forall|i: int| #[trigger] is_top(cs, i) ==> {
            &&& forall|j: int| 0 <= j < cs.len() ==> #[trigger] cs[j].contributions <= cs[i].contributions
            &&& 0 <= cs[i].contributions <= total_of(cs)
        },
    decreases cs.len(),
{
    lemma_total_bounds(cs);
    if cs.len() == 1 {
        assert(is_top(cs, 0));
    } else {
        let init = cs.drop_last();
        lemma_share_is_max_over_sum(init);
        let k = choose|k: int| is_top(init, k);
        assert(forall|j: int| 0 <= j < init.len() ==> init[j] == #[trigger] cs[j]);
        if cs.last().contributions > cs[k].contributions {
            assert(is_top(cs, cs.len() - 1));
        } else {
            assert(is_top(cs, k));
        }
    }
}

/// A list has one top contributor: the reduction of a list always picks the
/// same one.
pub proof fn lemma_top_unique(cs: Seq<Contributor>, i: int, k: int)
    requires
        is_top(cs, i),
        is_top(cs, k),
    ensures
        i == k,
{
    assert(cs[i].contributions <= cs[k].contributions);
    assert(cs[k].contributions <= cs[i].contributions);
}

proof fn lemma_total_remove(s: Seq<Contributor>, j: int)
    requires
        0 <= j < s.len(),
    ensures
        total_of(s) == total_of(s.remove(j)) + s[j].contributions,
    decreases s.len(),
{
    if j == s.len() - 1 {
        assert(s.remove(j) =~= s.drop_last());
    } else {
        lemma_total_remove(s.drop_last(), j);
        assert(s.remove(j).drop_last() =~= s.drop_last().remove(j));
        assert(s.remove(j).last() == s.last());
    }
}

proof fn lemma_total_permutation(a: Seq<Contributor>, b: Seq<Contributor>)
    requires
        a.to_multiset() == b.to_multiset(),
    ensures
        total_of(a) == total_of(b),
    decreases a.len(),
{
    broadcast use group_to_multiset_ensures;

    if a.len() == 0 {
        assert(b.to_multiset().len() == 0);
    } else {
        let x = a.last();
        assert(a.drop_last().push(x) =~= a);
        assert(a.to_multiset().count(x) > 0);
        assert(b.contains(x));
        let j = choose|j: int| 0 <= j < b.len() && b[j] == x;
        assert(a.drop_last().to_multiset() =~= a.to_multiset().remove(x));
        assert(b.remove(j).to_multiset() =~= b.to_multiset().remove(x));
        lemma_total_permutation(a.drop_last(), b.remove(j));
        lemma_total_remove(b, j);
    }
}

/// The reduction does not depend on the order of the list: two lists with
/// the same records have the same sum and the same top count, and where one
/// record alone holds that count, the same top contributor.
pub proof fn lemma_reduction_order_independent(a: Seq<Contributor>, b: Seq<Contributor>, i: int, j: int)
    requires
        a.to_multiset() == b.to_multiset(),
        is_top(a, i),
        is_top(b, j),
    ensures
        total_of(a) == total_of(b),
        a[i].contributions == b[j].contributions,
        (forall|k: int| 0 <= k < a.len() && k != i ==> #[trigger] a[k].contributions < a[i].contributions)
            ==> a[i] == b[j],
{
    broadcast use group_to_multiset_ensures;

    lemma_total_permutation(a, b);
    assert(a.to_multiset().count(a[i]) > 0);
    assert(b.contains(a[i]));
    assert(b.to_multiset().count(b[j]) > 0);
    assert(a.contains(b[j]));
    let m = choose|m: int| 0 <= m < a.len() && a[m] == b[j];
    assert(a[m].contributions <= a[i].contributions);
    let p = choose|p: int| 0 <= p < b.len() && b[p] == a[i];
    assert(b[p].contributions <= b[j].contributions);
}

} // verus!
