//! Pagination: a continuation cursor, a page-size limit, and one page of results.

use vstd::prelude::*;

verus! {

/// Where the next page of a listing starts. "No further pages" is held as
/// absence, never as an empty token.
#[derive(Debug)]
pub struct Cursor(Option<String>);

impl View for Cursor {
    type V = Option<Seq<char>>;

    closed spec fn view(&self) -> Option<Seq<char>> {
        match self.0 {
            Some(s) => Some(s@),
            None => None,
        }
    }
}

impl Cursor {
    #[verifier::type_invariant]
    closed spec fn inv(self) -> bool {
        match self.0 {
            Some(s) => s@.len() > 0,
            None => true,
        }
    }

    /// The cursor of the first page.
    pub fn none() -> (r: Cursor)
        ensures
            r@ is None,
    {
        Cursor(None)
    }

    /// The cursor that a listing's pagination metadata names: an empty
    /// `next_cursor` means that there are no further pages.
    pub fn from(value: ResponseMetadata) -> (r: Cursor)
        ensures
            r@ == next_page_cursor(value.next_cursor@),
    {
        if value.next_cursor.as_str().is_empty() {
            Cursor(None)
        } else {
            Cursor(Some(value.next_cursor))
        }
    }

    /// Whether there is no further page.
    pub fn is_none(&self) -> (r: bool)
        ensures
            r == self@ is None,
    {
        self.0.is_none()
    }

    /// The cursor as a query parameter value: empty for the first page, the
    /// token otherwise.
    pub fn as_str(&self) -> (r: &str)
        ensures
            r@ == cursor_text(self@),
            r@.len() == 0 <==> self@ is None,
    {
        proof {
            use_type_invariant(self);
            reveal_strlit("");
        }
        match &self.0 {
            Some(cursor) => cursor.as_str(),
            None => "",
        }
    }

    /// The token text; empty for the first page.
    pub fn get(&self) -> (r: &str)
        ensures
            r@ == cursor_text(self@),
    {
        self.as_str()
    }
}

/// The pagination metadata of a listing response.
#[derive(Debug)]
pub struct ResponseMetadata {
    pub next_cursor: String,
}

/// How many items a listing may return per page: from 1 through 1000.
#[derive(Clone, Copy, Debug)]
pub struct Limit(u16);

pub const MAX_LIMIT: u16 = 1000;

pub const DEFAULT_LIMIT: u16 = 100;

impl View for Limit {
    type V = u16;

    closed spec fn view(&self) -> u16 {
        self.0
    }
}

impl Limit {
    #[verifier::type_invariant]
    closed spec fn inv(self) -> bool {
        1 <= self.0 <= MAX_LIMIT
    }

    /// A limit of `limit` items; `None` unless `1 <= limit <= 1000`.
    pub fn new(limit: u16) -> (r: Option<Limit>)
        ensures
            match r {
                Some(l) => 1 <= limit <= MAX_LIMIT && l@ == limit,
                None => !(1 <= limit <= MAX_LIMIT),
            },
    {
        if 1 <= limit && limit <= MAX_LIMIT {
            Some(Limit(limit))
        } else {
            None
        }
    }

    pub fn get(&self) -> (r: u16)
        ensures
            r == self@,
            1 <= r <= MAX_LIMIT,
    {
        proof {
            use_type_invariant(self);
        }
        self.0
    }
}

impl Default for Limit {
    /// The limit used when none is given: 100.
    fn default() -> (r: Limit)
        ensures
            r@ == DEFAULT_LIMIT,
    {
        Limit(DEFAULT_LIMIT)
    }
}

/// One page of a listing: its items in order, and the cursor of the next page.
#[derive(Debug)]
pub struct Page<T> {
    results: Vec<T>,
    cursor: Cursor,
}

impl<T> Page<T> {
    pub closed spec fn spec_results(&self) -> Seq<T> {
        self.results@
    }

    pub closed spec fn spec_cursor(&self) -> Option<Seq<char>> {
        self.cursor@
    }

    pub fn new(results: Vec<T>, cursor: Cursor) -> (r: Page<T>)
        ensures
            r.spec_results() == results@,
            r.spec_cursor() == cursor@,
    {
        Page { results, cursor }
    }

    pub fn results(&self) -> (r: &[T])
        ensures
            r@ == self.spec_results(),
    {
        self.results.as_slice()
    }

    pub fn cursor(&self) -> (r: &Cursor)
        ensures
            r@ == self.spec_cursor(),
    {
        &self.cursor
    }
}

/// The query value of a cursor: its token, or empty for the first page.
pub open spec fn cursor_text(c: Option<Seq<char>>) -> Seq<char> {
    match c {
        Some(s) => s,
        None => Seq::empty(),
    }
}

/// The cursor that a `next_cursor` field names.
pub open spec fn next_page_cursor(next_cursor: Seq<char>) -> Option<Seq<char>> {
    if next_cursor.len() == 0 {
        None
    } else {
        Some(next_cursor)
    }
}

/// Reading an empty `next_cursor` gives the state of the first page's cursor,
/// and reading any other gives a cursor that is not that state.
pub proof fn lemma_empty_next_cursor_is_none(next_cursor: Seq<char>)
    ensures
        next_page_cursor(next_cursor) is None <==> next_cursor.len() == 0,
        next_page_cursor(Seq::empty()) is None,
{
}

} // verus!
