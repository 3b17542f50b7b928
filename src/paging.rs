use vstd::prelude::*;
use crate::keys::opt_view;

verus! {

/// The records of `pages`, page after page.
pub open spec fn joined<T>(pages: Seq<Seq<T>>) -> Seq<T>
    decreases pages.len(),
{
    if pages.len() == 0 {
        Seq::empty()
    } else {
        joined(pages.drop_last()) + pages.last()
    }
}

/// The sum of the pages' record counts.
pub open spec fn total_len<T>(pages: Seq<Seq<T>>) -> nat
    decreases pages.len(),
{
    if pages.len() == 0 {
        0
    } else {
        total_len(pages.drop_last()) + pages.last().len()
    }
}

/// What pagination collects holds exactly as many records as the pages did
/// together.
pub proof fn lemma_joined_len<T>(pages: Seq<Seq<T>>)
    ensures
        joined(pages).len() == total_len(pages),
    decreases pages.len(),
{
    if pages.len() > 0 {
        lemma_joined_len(pages.drop_last());
    }
}

/// One response of a paginated listing: its records, and the continuation
/// token where more pages follow.
#[derive(Debug)]
pub struct Page<T> {
    pub records: Vec<T>,
    pub next_token: Option<String>,
}

/// Walks a paginated listing to its end. The caller sends a request carrying
/// `request_token`, hands the response to `absorb`, and repeats while
/// `absorb` answers `true`.
pub struct Pager<T> {
    collected: Vec<T>,
    next_token: Option<String>,
    finished: bool,
    pages: Ghost<Seq<Seq<T>>>,
}

impl<T> Pager<T> {
    /// The records gathered so far.
    pub closed spec fn records(&self) -> Seq<T> {
        self.collected@
    }

    /// The pages absorbed so far, in order.
    pub closed spec fn pages_seen(&self) -> Seq<Seq<T>> {
        self.pages@
    }

    /// The token that the next request carries.
    pub closed spec fn token(&self) -> Option<Seq<char>> {
        opt_view(self.next_token)
    }

    /// Whether a response came without a continuation token.
    pub closed spec fn done(&self) -> bool {
        self.finished
    }

    pub closed spec fn wf(&self) -> bool {
        self.collected@ == joined(self.pages@)
    }

    pub fn new() -> (r: Self)
        ensures
            r.wf(),
            r.pages_seen() == Seq::<Seq<T>>::empty(),
            r.records() == Seq::<T>::empty(),
            r.token() is None,
            !r.done(),
    {
        Pager { collected: Vec::new(), next_token: None, finished: false, pages: Ghost(Seq::empty()) }
    }

    /// Returns the continuation token for the next request; none for the first.
    pub fn request_token(&self) -> (r: Option<String>)
        ensures
            opt_view(r) == self.token(),
    {
        match &self.next_token {
            Some(t) => Some(t.clone()),
            None => None,
        }
    }

    pub fn is_done(&self) -> (r: bool)
        ensures
            r == self.done(),
    {
        self.finished
    }

    /// Takes in one response. Returns whether another page is to be requested:
    /// exactly when the response carries a continuation token.
    pub fn absorb(&mut self, page: Page<T>) -> (more: bool)
        requires
            old(self).wf(),
            !old(self).done(),
        ensures
            final(self).wf(),
            final(self).pages_seen() == old(self).pages_seen().push(page.records@),
            final(self).records() == old(self).records() + page.records@,
            final(self).token() == opt_view(page.next_token),
            more == page.next_token is Some,
            final(self).done() == !more,
    {
        let Page { records, next_token } = page;
        let mut records = records;
        let ghost added = records@;
        self.collected.append(&mut records);
        self.pages = Ghost(self.pages@.push(added));
        proof {
            assert(self.pages@.drop_last() =~= old(self).pages@);
        }
        let more = next_token.is_some();
        self.next_token = next_token;
        self.finished = !more;
        more
    }

    /// Returns every record gathered, in the order the pages gave them.
    pub fn into_records(self) -> (r: Vec<T>)
        requires
            self.wf(),
        ensures
            r@ == self.records(),
            r@ == joined(self.pages_seen()),
            r@.len() == total_len(self.pages_seen()),
    {
        proof {
            lemma_joined_len(self.pages@);
        }
        self.collected
    }
}

} // verus!
