use vstd::prelude::*;
use crate::error::StarError;
use crate::model::StarEvent;

verus! {

/// One page of stargazers as the API returned it.
#[derive(Debug)]
pub struct Page {
    pub edges: Vec<StarEvent>,
    pub has_next_page: bool,
    pub end_cursor: Option<String>,
}

/// What a page says, as values.
pub struct PageState {
    pub edges: Seq<StarEvent>,
    pub has_next_page: bool,
    pub end_cursor: Option<String>,
}

impl View for Page {
    type V = PageState;

    open spec fn view(&self) -> PageState {
        PageState {
            edges: self.edges@,
            has_next_page: self.has_next_page,
            end_cursor: self.end_cursor,
        }
    }
}

/// What the pager asks of its caller next.
#[derive(Debug)]
pub enum Step {
    /// Fetch the page that follows the cursor; `None` asks for the first page.
    Fetch(Option<String>),
    /// Every page has been fetched.
    Done,
    /// A fetch failed: the whole collection is abandoned.
    Abort(StarError),
}

/// The pager's state as values: the cursor to resume from, whether more
/// pages exist, the star events collected so far and the failure, if any.
pub struct PagerState {
    pub cursor: Option<String>,
    pub has_next: bool,
    pub stars: Seq<StarEvent>,
    pub failure: Option<StarError>,
}

/// What the caller hands back after a fetch.
pub enum Reply {
    Delivered(PageState),
    Failed(StarError),
}

/// The state before anything was fetched.
pub open spec fn initial() -> PagerState {
    PagerState { cursor: None, has_next: true, stars: Seq::empty(), failure: None }
}

/// The pager waits for a page exactly when nothing failed and more pages exist.
pub open spec fn awaiting(s: PagerState) -> bool {
    s.failure is None && s.has_next
}

pub open spec fn step_of(s: PagerState) -> Step {
    match s.failure {
        Some(e) => Step::Abort(e),
        None => if s.has_next {
            Step::Fetch(s.cursor)
        } else {
            Step::Done
        },
    }
}

/// A page appends its edges in order and hands over its cursor and its
/// continuation flag. A page that nobody asked for changes nothing.
pub open spec fn after_page(s: PagerState, p: PageState) -> PagerState {
    if awaiting(s) {
        PagerState {
            cursor: p.end_cursor,
            has_next: p.has_next_page,
            stars: s.stars + p.edges,
            failure: None,
        }
    } else {
        s
    }
}

/// A failed fetch is final.
pub open spec fn after_failure(s: PagerState, e: StarError) -> PagerState {
    if awaiting(s) {
        PagerState { failure: Some(e), ..s }
    } else {
        s
    }
}

pub open spec fn after_reply(s: PagerState, r: Reply) -> PagerState {
    match r {
        Reply::Delivered(p) => after_page(s, p),
        Reply::Failed(e) => after_failure(s, e),
    }
}

/// The state after a run of replies.
pub open spec fn run(s: PagerState, replies: Seq<Reply>) -> PagerState
    decreases replies.len(),
{
    if replies.len() == 0 {
        s
    } else {
        run(after_reply(s, replies[0]), replies.drop_first())
    }
}

/// The cursors of the fetches that the pager asks for while the replies
/// come in, one for each reply that it waited for.
pub open spec fn requests(s: PagerState, replies: Seq<Reply>) -> Seq<Option<String>>
    decreases replies.len(),
{
    if replies.len() == 0 || !awaiting(s) {
        Seq::empty()
    } else {
        seq![s.cursor] + requests(after_reply(s, replies[0]), replies.drop_first())
    }
}

/// The edges of a run of pages, page after page.
pub open spec fn all_edges(pages: Seq<PageState>) -> Seq<StarEvent>
    decreases pages.len(),
{
    if pages.len() == 0 {
        Seq::empty()
    } else {
        pages[0].edges + all_edges(pages.drop_first())
    }
}

/// How many edges a run of pages holds.
pub open spec fn edge_count(pages: Seq<PageState>) -> nat
    decreases pages.len(),
{
    if pages.len() == 0 {
        0
    } else {
        pages[0].edges.len() + edge_count(pages.drop_first())
    }
}

/// Each page delivered as a reply.
pub open spec fn delivered(pages: Seq<PageState>) -> Seq<Reply> {
    pages.map_values(|p: PageState| Reply::Delivered(p))
}

/// Every page but the last announces a next page; the last announces none.
pub open spec fn well_chained(pages: Seq<PageState>) -> bool {
    &&& pages.len() > 0
    &&& forall|i: int| 0 <= i < pages.len() - 1 ==> #[trigger] pages[i].has_next_page
    &&& !pages[pages.len() - 1].has_next_page
}

/// The cursor each page hands over, page after page.
pub open spec fn cursors_of(pages: Seq<PageState>) -> Seq<Option<String>> {
    pages.map_values(|p: PageState| p.end_cursor)
}

proof fn lemma_edge_count(pages: Seq<PageState>)
    ensures
        all_edges(pages).len() == edge_count(pages),
    decreases pages.len(),
{
    if pages.len() > 0 {
        lemma_edge_count(pages.drop_first());
    }
}

proof fn lemma_settled_stays(s: PagerState, replies: Seq<Reply>)
    requires
        !awaiting(s),
    ensures
        run(s, replies) == s,
        requests(s, replies) == Seq::<Option<String>>::empty(),
    decreases replies.len(),
{
    if replies.len() > 0 {
        lemma_settled_stays(after_reply(s, replies[0]), replies.drop_first());
    }
}

proof fn lemma_run_pages(s: PagerState, pages: Seq<PageState>)
    requires
        awaiting(s),
        pages.len() > 0,
        forall|i: int| 0 <= i < pages.len() - 1 ==> #[trigger] pages[i].has_next_page,
    ensures
        run(s, delivered(pages)) == (PagerState {
            cursor: pages[pages.len() - 1].end_cursor,
            has_next: pages[pages.len() - 1].has_next_page,
            stars: s.stars + all_edges(pages),
            failure: None,
        }),
        requests(s, delivered(pages)) == seq![s.cursor] + cursors_of(pages.drop_last()),
    decreases pages.len(),
{
    let replies = delivered(pages);
    let rest = pages.drop_first();
    let s1 = after_page(s, pages[0]);
    assert(replies[0] == Reply::Delivered(pages[0]));
    assert(replies.drop_first() =~= delivered(rest));
    assert(run(s, replies) == run(s1, delivered(rest)));
    if pages.len() == 1 {
        assert(run(s1, delivered(rest)) == s1);
        assert(rest.len() == 0);
        assert(all_edges(rest) == Seq::<StarEvent>::empty());
        assert(all_edges(pages) == pages[0].edges + all_edges(rest));
        assert(all_edges(pages) =~= pages[0].edges);
        assert(s.stars + all_edges(pages) =~= s1.stars);
        assert(cursors_of(pages.drop_last()) =~= Seq::<Option<String>>::empty());
        assert(requests(s1, replies.drop_first()) == Seq::<Option<String>>::empty());
        assert(requests(s, replies) =~= seq![s.cursor]);
    } else {
        assert(pages[0].has_next_page);
        assert forall|i: int| 0 <= i < rest.len() - 1 implies #[trigger] rest[i].has_next_page by {
            assert(rest[i] == pages[i + 1]);
        }
        lemma_run_pages(s1, rest);
        assert(rest[rest.len() - 1] == pages[pages.len() - 1]);
        assert(s.stars + all_edges(pages) =~= s1.stars + all_edges(rest));
        assert(cursors_of(pages.drop_last()) =~= seq![s1.cursor] + cursors_of(rest.drop_last()));
        assert(requests(s, replies) =~= seq![s.cursor] + cursors_of(pages.drop_last()));
    }
}

/// Pages that chain to the end are collected whole: the result is the
/// concatenation of every page's edges in page order, as many as the pages
/// hold together, and the pager then stops.
pub proof fn lemma_all_pages_collected(pages: Seq<PageState>)
    requires
        well_chained(pages),
    ensures
        run(initial(), delivered(pages)).stars == all_edges(pages),
        run(initial(), delivered(pages)).stars.len() == edge_count(pages),
        run(initial(), delivered(pages)).failure is None,
        step_of(run(initial(), delivered(pages))) == Step::Done,
{
    lemma_run_pages(initial(), pages);
    lemma_edge_count(pages);
    assert(initial().stars + all_edges(pages) =~= all_edges(pages));
}

/// The first fetch carries no cursor, and every later fetch carries exactly
/// the end cursor of the page before it; one fetch is made per page. This
/// holds of any run of pages each of which but the last announces a next
/// page, whether or not the last one ends the collection.
pub proof fn lemma_cursor_threading(pages: Seq<PageState>)
    requires
        pages.len() > 0,
        forall|i: int| 0 <= i < pages.len() - 1 ==> #[trigger] pages[i].has_next_page,
    ensures
        requests(initial(), delivered(pages)).len() == pages.len(),
        requests(initial(), delivered(pages))[0] == None::<String>,
        forall|i: int|
            0 < i < pages.len() ==> #[trigger] requests(initial(), delivered(pages))[i]
                == pages[i - 1].end_cursor,
{
    lemma_run_pages(initial(), pages);
    let q = requests(initial(), delivered(pages));
    assert forall|i: int| 0 < i < pages.len() implies #[trigger] q[i] == pages[i - 1].end_cursor by {
        assert(q[i] == cursors_of(pages.drop_last())[i - 1]);
    }
}

/// A first page that announces no next page ends the collection after that
/// one fetch, with its edges as the whole result, whatever would follow.
pub proof fn lemma_last_first_page(p: PageState, later: Seq<Reply>)
    requires
        !p.has_next_page,
    ensures
        run(initial(), seq![Reply::Delivered(p)] + later) == after_page(initial(), p),
        run(initial(), seq![Reply::Delivered(p)] + later).stars == p.edges,
        step_of(run(initial(), seq![Reply::Delivered(p)] + later)) == Step::Done,
        requests(initial(), seq![Reply::Delivered(p)] + later) == seq![None::<String>],
{
    let replies = seq![Reply::Delivered(p)] + later;
    let s1 = after_page(initial(), p);
    assert(replies[0] == Reply::Delivered(p));
    assert(replies.drop_first() =~= later);
    lemma_settled_stays(s1, later);
    assert(s1.stars =~= p.edges);
    assert(requests(initial(), replies) =~= seq![None::<String>]);
}

/// A failed fetch ends the collection: the pager asks for nothing more,
/// keeps the failure, and its outcome is that failure alone.
pub proof fn lemma_failure_is_final(s: PagerState, e: StarError, later: Seq<Reply>)
    requires
        awaiting(s),
    ensures
        run(s, seq![Reply::Failed(e)] + later).failure == Some(e),
        step_of(run(s, seq![Reply::Failed(e)] + later)) == Step::Abort(e),
        requests(s, seq![Reply::Failed(e)] + later) == seq![s.cursor],
{
    let replies = seq![Reply::Failed(e)] + later;
    let s1 = after_failure(s, e);
    assert(replies[0] == Reply::Failed(e));
    assert(replies.drop_first() =~= later);
    lemma_settled_stays(s1, later);
    assert(requests(s, replies) =~= seq![s.cursor]);
}

/// When the second of several pages fails, exactly two fetches are made and
/// the collection ends with that failure, so that its outcome holds no star
/// event of the first page.
pub proof fn lemma_second_page_fails(first: PageState, e: StarError, later: Seq<Reply>)
    requires
        first.has_next_page,
    ensures
        requests(initial(), seq![Reply::Delivered(first), Reply::Failed(e)] + later)
            == seq![None::<String>, first.end_cursor],
        step_of(run(initial(), seq![Reply::Delivered(first), Reply::Failed(e)] + later))
            == Step::Abort(e),
        run(initial(), seq![Reply::Delivered(first), Reply::Failed(e)] + later).failure == Some(e),
{
    let replies = seq![Reply::Delivered(first), Reply::Failed(e)] + later;
    let s1 = after_page(initial(), first);
    assert(replies[0] == Reply::Delivered(first));
    assert(replies.drop_first() =~= seq![Reply::Failed(e)] + later);
    lemma_failure_is_final(s1, e, later);
    assert(requests(initial(), replies) =~= seq![None::<String>, first.end_cursor]);
}

/// Drives the pagination loop: it says which page to fetch next and takes
/// each page or failure in turn.
pub struct Pager {
    cursor: Option<String>,
    has_next: bool,
    stars: Vec<StarEvent>,
    failure: Option<StarError>,
}

impl View for Pager {
    type V = PagerState;

    closed spec fn view(&self) -> PagerState {
        PagerState {
            cursor: self.cursor,
            has_next: self.has_next,
            stars: self.stars@,
            failure: self.failure,
        }
    }
}

impl Pager {
    /// A pager that has fetched nothing and asks for the first page.
    pub fn new() -> (r: Pager)
        ensures
            r@ == initial(),
            step_of(r@) == Step::Fetch(None),
    {
        Pager { cursor: None, has_next: true, stars: Vec::new(), failure: None }
    }

    /// What to do next: fetch after the current cursor while pages remain,
    /// stop when none remain, abort after a failure.
    pub fn next_step(&self) -> (r: Step)
        ensures
            r == step_of(self@),
    {
        match &self.failure {
            Some(e) => Step::Abort(e.duplicate()),
            None => if self.has_next {
                match &self.cursor {
                    Some(c) => Step::Fetch(Some(c.clone())),
                    None => Step::Fetch(None),
                }
            } else {
                Step::Done
            },
        }
    }

    /// Takes the page that the last step asked for.
    pub fn on_page(&mut self, page: Page)
        ensures
            final(self)@ == after_page(old(self)@, page@),
    {
        if self.failure.is_none() && self.has_next {
            let Page { edges, has_next_page, end_cursor } = page;
            let mut edges = edges;
            self.stars.append(&mut edges);
            self.cursor = end_cursor;
            self.has_next = has_next_page;
        }
    }

    /// Takes the failure of the fetch that the last step asked for.
    pub fn on_failure(&mut self, error: StarError)
        ensures
            final(self)@ == after_failure(old(self)@, error),
    {
        if self.failure.is_none() && self.has_next {
            self.failure = Some(error);
        }
    }

    /// How many star events have been collected so far.
    pub fn fetched(&self) -> (r: usize)
        ensures
            r == self@.stars.len(),
    {
        self.stars.len()
    }

    /// The outcome once nothing is left to fetch: every star event in the
    /// order received, or the failure alone.
    pub fn into_stars(self) -> (r: Result<Vec<StarEvent>, StarError>)
        requires
            !awaiting(self@),
        ensures
            self@.failure matches Some(e) ==> r == Err::<Vec<StarEvent>, StarError>(e),
            self@.failure is None ==> (r matches Ok(v) && v@ == self@.stars),
    {
        match self.failure {
            Some(e) => Err(e),
            None => Ok(self.stars),
        }
    }
}

} // verus!
