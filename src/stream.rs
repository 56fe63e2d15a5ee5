//! The contribution stream as a pull-driven state machine.
//!
//! The caller asks [`ContributionStream::poll`] what to do next, performs the
//! request, and hands the outcome back to [`ContributionStream::on_page`] or
//! [`ContributionStream::on_contributors`], which return the item to yield,
//! if any. Pages are fetched only when every repository of the pages before
//! them has been resolved, one repository is resolved at a time, and the
//! stream ends after `limit` items or right after the first error.
use vstd::prelude::*;
use crate::github::{Contributor, PagedResult, Repository};
use crate::github_client::{analysis_of, get_top_contributor_percentage, ApiError, ContributionResult};

verus! {

/// What the caller has to do next to move the stream on.
pub enum Demand {
    /// Fetch the search page with this zero-based index, then call `on_page`.
    FetchPage(u64),
    /// Fetch the contributors of this repository, then call `on_contributors`.
    Resolve { owner: String, name: String },
    /// The stream has ended; no further request is to be made.
    Finished,
}

/// Abstract state of a [`ContributionStream`].
pub struct StreamModel {
    /// The largest number of items the stream yields.
    pub limit: nat,
    /// The items of each search page fetched so far, page 0 first.
    pub pages: Seq<Seq<Repository>>,
    /// The repositories handed out for resolution, in order.
    pub resolved: Seq<Repository>,
    /// The items yielded so far.
    pub output: Seq<Result<ContributionResult, ApiError>>,
    /// A page request is out.
    pub awaiting_page: bool,
    /// A contributors request is out, for the last of `resolved`.
    pub awaiting_contributors: bool,
    /// A page request has failed.
    pub page_failed: bool,
}

/// The repositories of the fetched pages, in the order the search ranked them.
pub open spec fn found(m: StreamModel) -> Seq<Repository> {
    m.pages.flatten()
}

/// Every item of `o` is a success.
pub open spec fn all_ok(o: Seq<Result<ContributionResult, ApiError>>) -> bool {
    forall|i: int| 0 <= i < o.len() ==> (#[trigger] o[i]) is Ok
}

/// The last item yielded is an error.
pub open spec fn failed(m: StreamModel) -> bool {
    m.output.len() > 0 && m.output.last() is Err
}

/// The page counter can go no further (after `u64::MAX` pages).
pub open spec fn pages_exhausted(m: StreamModel) -> bool {
    m.resolved.len() == found(m).len() && m.pages.len() == u64::MAX
}

/// The stream yields nothing more.
pub open spec fn ended(m: StreamModel) -> bool {
    m.output.len() == m.limit || failed(m) || pages_exhausted(m)
}

/// What holds of every reachable state.
pub open spec fn stream_inv(m: StreamModel) -> bool {
    &&& m.output.len() <= m.limit
    &&& m.resolved.len() <= found(m).len()
    &&& m.resolved =~= found(m).take(m.resolved.len() as int)
    &&& m.output.len() + (if m.awaiting_contributors { 1int } else { 0 })
        == m.resolved.len() + (if m.page_failed { 1int } else { 0 })
    &&& forall|i: int| 0 <= i < m.output.len() - 1 ==> (#[trigger] m.output[i]) is Ok
    &&& forall|i: int|
        0 <= i < m.output.len() && i < m.resolved.len() && (#[trigger] m.output[i]) is Ok
            ==> m.output[i]->Ok_0.repo@ == m.resolved[i].name@
    &&& m.page_failed ==> failed(m) && !m.awaiting_page && !m.awaiting_contributors
    &&& m.awaiting_page ==> !m.awaiting_contributors && !ended(m) && m.resolved.len() == found(m).len()
    &&& m.awaiting_contributors ==> m.resolved.len() > 0 && m.output.len() < m.limit && all_ok(m.output)
}

/// The state after the caller asked for page `m.pages.len()`.
pub open spec fn after_page_request(m: StreamModel) -> StreamModel {
    StreamModel { awaiting_page: true, ..m }
}

/// The state after the next repository was handed out for resolution.
pub open spec fn after_handout(m: StreamModel) -> StreamModel {
    StreamModel {
        resolved: m.resolved.push(found(m)[m.resolved.len() as int]),
        awaiting_contributors: true,
        ..m
    }
}

/// The state after a page with `items` arrived.
pub open spec fn after_page(m: StreamModel, items: Seq<Repository>) -> StreamModel {
    StreamModel { pages: m.pages.push(items), awaiting_page: false, ..m }
}

/// The state after a page request failed with `e`.
pub open spec fn after_page_error(m: StreamModel, e: ApiError) -> StreamModel {
    StreamModel {
        output: m.output.push(Err(e)),
        awaiting_page: false,
        page_failed: true,
        ..m
    }
}

/// The state after the repository in resolution gave `r`.
pub open spec fn after_resolution(m: StreamModel, r: Result<ContributionResult, ApiError>) -> StreamModel {
    StreamModel { output: m.output.push(r), awaiting_contributors: false, ..m }
}

/// The stream of contribution results for the repositories of a search, in
/// rank order, bounded by a limit.
pub struct ContributionStream {
    limit: usize,
    next_page: u64,
    pending: Vec<Repository>,
    current: Option<Repository>,
    awaiting_page: bool,
    awaiting_contributors: bool,
    emitted: usize,
    stopped: bool,
    pages: Ghost<Seq<Seq<Repository>>>,
    resolved: Ghost<Seq<Repository>>,
    output: Ghost<Seq<Result<ContributionResult, ApiError>>>,
    page_failed: Ghost<bool>,
}

impl View for ContributionStream {
    type V = StreamModel;

    closed spec fn view(&self) -> StreamModel {
        StreamModel {
            limit: self.limit as nat,
            pages: self.pages@,
            resolved: self.resolved@,
            output: self.output@,
            awaiting_page: self.awaiting_page,
            awaiting_contributors: self.awaiting_contributors,
            page_failed: self.page_failed@,
        }
    }
}

impl ContributionStream {
    /// The state is consistent.
    pub closed spec fn wf(&self) -> bool {
        &&& stream_inv(self@)
        &&& self.next_page == self.pages@.len()
        &&& self.emitted == self.output@.len()
        &&& self.stopped == failed(self@)
        &&& found(self@) =~= self.resolved@ + self.pending@
        &&& self.awaiting_contributors <==> self.current is Some
        &&& self.current matches Some(c) ==> c == self.resolved@.last()
    }

    /// A stream that yields at most `limit` items, starting from page 0.
    pub fn new(limit: usize) -> (s: Self)
        ensures
            s.wf(),
            s@ == (StreamModel {
                limit: limit as nat,
                pages: Seq::empty(),
                resolved: Seq::empty(),
                output: Seq::empty(),
                awaiting_page: false,
                awaiting_contributors: false,
                page_failed: false,
            }),
    {
        let s = ContributionStream {
            limit,
            next_page: 0,
            pending: Vec::new(),
            current: None,
            awaiting_page: false,
            awaiting_contributors: false,
            emitted: 0,
            stopped: false,
            pages: Ghost(Seq::empty()),
            resolved: Ghost(Seq::empty()),
            output: Ghost(Seq::empty()),
            page_failed: Ghost(false),
        };
        assert(found(s@) =~= Seq::empty());
        s
    }

    /// A page request is out: `on_page` is to be called next.
    pub fn is_awaiting_page(&self) -> (r: bool)
        ensures
            r == self@.awaiting_page,
    {
        self.awaiting_page
    }

    /// A contributors request is out: `on_contributors` is to be called next.
    pub fn is_awaiting_contributors(&self) -> (r: bool)
        ensures
            r == self@.awaiting_contributors,
    {
        self.awaiting_contributors
    }

    /// Says what the caller has to do next: nothing once the stream has
    /// ended, the next found repository if one is left, else the next page.
    pub fn poll(&mut self) -> (d: Demand)
        requires
            old(self).wf(),
            !old(self)@.awaiting_page,
            !old(self)@.awaiting_contributors,
        ensures
            final(self).wf(),
            d is Finished <==> ended(old(self)@),
            d is Finished ==> final(self)@ == old(self)@,
            d matches Demand::FetchPage(k) ==> {
                &&& old(self)@.resolved.len() == found(old(self)@).len()
                &&& k == old(self)@.pages.len()
                &&& final(self)@ == after_page_request(old(self)@)
            },
            d matches Demand::Resolve { owner, name } ==> {
                &&& old(self)@.resolved.len() < found(old(self)@).len()
                &&& final(self)@ == after_handout(old(self)@)
                &&& name@ == final(self)@.resolved.last().name@
                &&& owner@ == final(self)@.resolved.last().owner.login@
            },
    {
        if self.emitted == self.limit || self.stopped || (self.pending.len() == 0 && self.next_page == u64::MAX) {
            return Demand::Finished;
        }
        if self.pending.len() == 0 {
            self.awaiting_page = true;
            return Demand::FetchPage(self.next_page);
        }
        let ghost m = self@;
        let repo = self.pending.remove(0);
        let owner = repo.owner.login.clone();
        let name = repo.name.clone();
        self.resolved = Ghost(self.resolved@.push(repo));
        self.current = Some(repo);
        self.awaiting_contributors = true;
        proof {
            assert(found(m)[m.resolved.len() as int] == repo);
            assert(found(self@) =~= self.resolved@ + self.pending@);
            assert(self.resolved@ =~= found(self@).take(self.resolved@.len() as int));
        }
        Demand::Resolve { owner, name }
    }

    /// Takes the outcome of the page request; returns the error to yield as
    /// the stream's last item if the request failed.
    pub fn on_page(&mut self, page: Result<PagedResult<Repository>, ApiError>) -> (r: Option<ApiError>)
        requires
            old(self).wf(),
            old(self)@.awaiting_page,
        ensures
            final(self).wf(),
            page is Ok ==> r is None && final(self)@ == after_page(old(self)@, page->Ok_0.items@),
            page matches Err(e) ==> r == Some(e) && final(self)@ == after_page_error(old(self)@, e),
    {
        self.awaiting_page = false;
        match page {
            Ok(p) => {
                let ghost m = self@;
                proof {
                    m.pages.lemma_flatten_push(p.items@);
                }
                self.pages = Ghost(self.pages@.push(p.items@));
                self.pending = p.items;
                self.next_page = self.next_page + 1;
                proof {
                    assert(found(self@) =~= self.resolved@ + self.pending@);
                    assert(self.resolved@ =~= found(self@).take(self.resolved@.len() as int));
                }
                None
            },
            Err(e) => {
                self.output = Ghost(self.output@.push(Err(e)));
                self.page_failed = Ghost(true);
                self.emitted = self.emitted + 1;
                self.stopped = true;
                Some(e)
            },
        }
    }

    /// Takes the outcome of the contributors request for the repository in
    /// resolution and returns the item to yield: its analysis, or the error.
    pub fn on_contributors(&mut self, fetched: Result<Vec<Contributor>, ApiError>) -> (r: Result<ContributionResult, ApiError>)
        requires
            old(self).wf(),
            old(self)@.awaiting_contributors,
        ensures
            final(self).wf(),
            final(self)@ == after_resolution(old(self)@, r),
            r is Ok <==> fetched is Ok,
            r matches Err(e) ==> fetched == Err::<Vec<Contributor>, ApiError>(e),
            r matches Ok(c) ==> analysis_of(old(self)@.resolved.last(), fetched->Ok_0@, c),
    {
        let ghost m = self@;
        let repo = self.current.take().unwrap();
        let r = get_top_contributor_percentage(&repo, fetched);
        self.output = Ghost(self.output@.push(r));
        self.emitted = self.emitted + 1;
        self.stopped = r.is_err();
        self.awaiting_contributors = false;
        proof {
            assert(self.output@[m.output.len() as int] == r);
        }
        r
    }
}

/// What the caller of a [`RepositoryStream`] has to do next.
pub enum PageDemand {
    /// Fetch the search page with this zero-based index, then call `on_page`.
    FetchPage(u64),
    /// Yield this repository.
    Next(Repository),
    /// The stream has ended.
    Finished,
}

/// Abstract state of a [`RepositoryStream`].
pub struct RepositoryModel {
    /// The items of each search page fetched so far, page 0 first.
    pub pages: Seq<Seq<Repository>>,
    /// The repositories yielded so far.
    pub yielded: Seq<Repository>,
    /// A page request is out.
    pub awaiting_page: bool,
    /// A page request has failed, and its error was the last item.
    pub failed: bool,
}

/// What holds of every reachable state of a [`RepositoryStream`]: the
/// repositories come out in the order the pages list them.
pub open spec fn repository_inv(m: RepositoryModel) -> bool {
    &&& m.yielded.len() <= m.pages.flatten().len()
    &&& m.yielded =~= m.pages.flatten().take(m.yielded.len() as int)
    &&& m.awaiting_page ==> !m.failed && m.yielded.len() == m.pages.flatten().len() && m.pages.len() < u64::MAX
}

/// The stream of the repositories of a search, page after page, that ends
/// after the first failed page request.
pub struct RepositoryStream {
    next_page: u64,
    pending: Vec<Repository>,
    awaiting_page: bool,
    failed: bool,
    pages: Ghost<Seq<Seq<Repository>>>,
    yielded: Ghost<Seq<Repository>>,
}

impl View for RepositoryStream {
    type V = RepositoryModel;

    closed spec fn view(&self) -> RepositoryModel {
        RepositoryModel {
            pages: self.pages@,
            yielded: self.yielded@,
            awaiting_page: self.awaiting_page,
            failed: self.failed,
        }
    }
}

impl RepositoryStream {
    /// The state is consistent.
    pub closed spec fn wf(&self) -> bool {
        &&& repository_inv(self@)
        &&& self.next_page == self.pages@.len()
        &&& self.pages@.flatten() =~= self.yielded@ + self.pending@
    }

    /// A stream that starts from page 0.
    pub fn new() -> (s: Self)
        ensures
            s.wf(),
            s@ == (RepositoryModel {
                pages: Seq::empty(),
                yielded: Seq::empty(),
                awaiting_page: false,
                failed: false,
            }),
    {
        let s = RepositoryStream {
            next_page: 0,
            pending: Vec::new(),
            awaiting_page: false,
            failed: false,
            pages: Ghost(Seq::empty()),
            yielded: Ghost(Seq::empty()),
        };
        assert(s.pages@.flatten() =~= Seq::empty());
        s
    }

    /// A page request is out: `on_page` is to be called next.
    pub fn is_awaiting_page(&self) -> (r: bool)
        ensures
            r == self@.awaiting_page,
    {
        self.awaiting_page
    }

    /// Says what the caller has to do next: nothing after a failed page, the
    /// next repository of the fetched pages if one is left, else the next page.
    pub fn poll(&mut self) -> (d: PageDemand)
        requires
            old(self).wf(),
            !old(self)@.awaiting_page,
        ensures
            final(self).wf(),
            d is Finished <==> old(self)@.failed || (old(self)@.yielded.len()
                == old(self)@.pages.flatten().len() && old(self)@.pages.len() == u64::MAX),
            d is Finished ==> final(self)@ == old(self)@,
            d matches PageDemand::FetchPage(k) ==> {
                &&& old(self)@.yielded.len() == old(self)@.pages.flatten().len()
                &&& k == old(self)@.pages.len()
                &&& final(self)@ == (RepositoryModel { awaiting_page: true, ..old(self)@ })
            },
            d matches PageDemand::Next(r) ==> {
                &&& old(self)@.yielded.len() < old(self)@.pages.flatten().len()
                &&& r == old(self)@.pages.flatten()[old(self)@.yielded.len() as int]
                &&& final(self)@ == (RepositoryModel { yielded: old(self)@.yielded.push(r), ..old(self)@ })
            },
    {
        if self.failed || (self.pending.len() == 0 && self.next_page == u64::MAX) {
            return PageDemand::Finished;
        }
        if self.pending.len() == 0 {
            self.awaiting_page = true;
            return PageDemand::FetchPage(self.next_page);
        }
        let ghost m = self@;
        let repo = self.pending.remove(0);
        self.yielded = Ghost(self.yielded@.push(repo));
        proof {
            assert(m.pages.flatten()[m.yielded.len() as int] == repo);
            assert(self.pages@.flatten() =~= self.yielded@ + self.pending@);
            assert(self.yielded@ =~= self.pages@.flatten().take(self.yielded@.len() as int));
        }
        PageDemand::Next(repo)
    }

    /// Takes the outcome of the page request; returns the error to yield as
    /// the stream's last item if the request failed.
    pub fn on_page(&mut self, page: Result<PagedResult<Repository>, ApiError>) -> (r: Option<ApiError>)
        requires
            old(self).wf(),
            old(self)@.awaiting_page,
        ensures
            final(self).wf(),
            page is Ok ==> r is None && final(self)@ == (RepositoryModel {
                pages: old(self)@.pages.push(page->Ok_0.items@),
                awaiting_page: false,
                ..old(self)@
            }),
            page matches Err(e) ==> r == Some(e) && final(self)@ == (RepositoryModel {
                awaiting_page: false,
                failed: true,
                ..old(self)@
            }),
    {
        self.awaiting_page = false;
        match page {
            Ok(p) => {
                let ghost m = self@;
                proof {
                    m.pages.lemma_flatten_push(p.items@);
                }
                self.pages = Ghost(self.pages@.push(p.items@));
                self.pending = p.items;
                self.next_page = self.next_page + 1;
                proof {
                    assert(self.pages@.flatten() =~= self.yielded@ + self.pending@);
                    assert(self.yielded@ =~= self.pages@.flatten().take(self.yielded@.len() as int));
                }
                None
            },
            Err(e) => {
                self.failed = true;
                Some(e)
            },
        }
    }
}

/// The stream never yields more than its limit, and ends before reaching it
/// only right after an error (or once the page counter can go no further).
pub proof fn lemma_yield_bound(m: StreamModel)
    requires
        stream_inv(m),
    ensures
        m.output.len() <= m.limit,
        ended(m) && m.output.len() < m.limit ==> failed(m) || pages_exhausted(m),
        failed(m) ==> all_ok(m.output.drop_last()),
{
}

/// The results come in the order in which the search pages list the
/// repositories: the `i`-th result is that of the `i`-th repository found.
pub proof fn lemma_output_in_search_order(m: StreamModel)
    requires
        stream_inv(m),
    ensures
        forall|i: int|
            0 <= i < m.output.len() && (#[trigger] m.output[i]) is Ok ==> {
                &&& i < found(m).len()
                &&& m.output[i]->Ok_0.repo@ == found(m)[i].name@
            },
{
    assert forall|i: int|
        0 <= i < m.output.len() && (#[trigger] m.output[i]) is Ok implies {
            &&& i < found(m).len()
            &&& m.output[i]->Ok_0.repo@ == found(m)[i].name@
        } by {
        assert(i < m.resolved.len());
        assert(m.resolved[i] == found(m).take(m.resolved.len() as int)[i]);
    }
}

/// When the request for the next page fails, its error is the last item:
/// it follows the results of all repositories resolved so far, each a
/// success, and no repository of that page or a later one is ever resolved.
pub proof fn lemma_page_failure_ends_stream(m: StreamModel, e: ApiError)
    requires
        stream_inv(m),
        m.awaiting_page,
    ensures
        stream_inv(after_page_error(m, e)),
        ended(after_page_error(m, e)),
        after_page_error(m, e).output == m.output.push(Err(e)),
        all_ok(m.output),
        m.output.len() == m.resolved.len(),
        after_page_error(m, e).pages == m.pages,
        after_page_error(m, e).resolved == m.resolved,
{
    let n = after_page_error(m, e);
    assert(n.output.last() == Err::<ContributionResult, ApiError>(e));
    assert forall|i: int| 0 <= i < m.output.len() implies (#[trigger] m.output[i]) is Ok by {
        assert(!failed(m));
        if i < m.output.len() - 1 {
        } else {
            assert(m.output.last() == m.output[i]);
        }
    }
    assert forall|i: int| 0 <= i < n.output.len() - 1 implies (#[trigger] n.output[i]) is Ok by {
        assert(n.output[i] == m.output[i]);
    }
    assert forall|i: int|
        0 <= i < n.output.len() && i < n.resolved.len() && (#[trigger] n.output[i]) is Ok
            implies n.output[i]->Ok_0.repo@ == n.resolved[i].name@ by {
        assert(n.output[i] == m.output[i]);
    }
}

/// The repository stream yields the repositories of page 0, then those of
/// page 1, and so on, each in the order its page lists them.
pub proof fn lemma_repositories_in_page_order(m: RepositoryModel)
    requires
        repository_inv(m),
    ensures
        forall|i: int| 0 <= i < m.yielded.len() ==> #[trigger] m.yielded[i] == m.pages.flatten()[i],
{
    assert forall|i: int| 0 <= i < m.yielded.len() implies #[trigger] m.yielded[i] == m.pages.flatten()[i] by {
        assert(m.yielded[i] == m.pages.flatten().take(m.yielded.len() as int)[i]);
    }
}

} // verus!
