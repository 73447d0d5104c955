//! What clients send: the paging options of a listing and the bodies of the
//! create and edit requests.

use vstd::prelude::*;

verus! {

/// The page a listing shows when the client names none.
pub const DEFAULT_PAGE: usize = 1;

/// How many notes a page holds when the client names no limit.
pub const DEFAULT_LIMIT: usize = 10;

/// The largest value that the listing query binds as a parameter.
pub const MAX_BOUND: usize = 2147483647;

/// Query parameters for listing notes page by page; pages count from one.
#[derive(Clone, Debug)]
pub struct FilterOptions {
    pub page: Option<usize>,
    pub limit: Option<usize>,
}

/// The window of a listing as the query binds it: at most `limit` notes,
/// skipping the first `offset` in id order.
#[derive(Clone, Copy, Debug, PartialEq, Eq, Structural)]
pub struct Paging {
    pub limit: i32,
    pub offset: i32,
}

/// Why paging options were refused.
#[derive(Clone, Copy, Debug, PartialEq, Eq, Structural)]
pub enum PagingError {
    /// Page zero comes before the first page.
    PageZero,
    /// The limit or the offset is beyond what the query can bind.
    TooLarge,
}

/// Body of a request that creates a note.
#[derive(Clone, Debug)]
pub struct CreateNoteSchema {
    pub title: String,
    pub content: String,
    pub is_published: Option<bool>,
}

/// Body of a request that edits a note: each field that is set replaces the
/// stored one.
#[derive(Clone, Debug)]
pub struct UpdateNoteSchema {
    pub title: Option<String>,
    pub content: Option<String>,
    pub is_published: Option<bool>,
}

/// The mathematical value of a create body.
pub ghost struct CreateView {
    pub title: Seq<char>,
    pub content: Seq<char>,
    pub is_published: Option<bool>,
}

/// The mathematical value of an edit body.
pub ghost struct PatchView {
    pub title: Option<Seq<char>>,
    pub content: Option<Seq<char>>,
    pub is_published: Option<bool>,
}

/// The text of an optional string.
pub open spec fn opt_text(o: Option<String>) -> Option<Seq<char>> {
    match o {
        Some(s) => Some(s@),
        None => None,
    }
}

impl View for CreateNoteSchema {
    type V = CreateView;

    open spec fn view(&self) -> CreateView {
        CreateView { title: self.title@, content: self.content@, is_published: self.is_published }
    }
}

impl View for UpdateNoteSchema {
    type V = PatchView;

    open spec fn view(&self) -> PatchView {
        PatchView {
            title: opt_text(self.title),
            content: opt_text(self.content),
            is_published: self.is_published,
        }
    }
}

impl FilterOptions {
    pub open spec fn page_spec(&self) -> int {
        match self.page {
            Some(p) => p as int,
            None => DEFAULT_PAGE as int,
        }
    }

    pub open spec fn limit_spec(&self) -> int {
        match self.limit {
            Some(l) => l as int,
            None => DEFAULT_LIMIT as int,
        }
    }

    /// How many notes come before the requested page.
    pub open spec fn offset_spec(&self) -> int {
        (self.page_spec() - 1) * self.limit_spec()
    }

    /// The window of the listing: the defaults filled in and the offset
    /// computed, or the reason the options cannot be served.
    pub fn paging(&self) -> (r: Result<Paging, PagingError>)
        ensures
            r == Err::<Paging, PagingError>(PagingError::PageZero) <==> self.page_spec() == 0,
            r == Err::<Paging, PagingError>(PagingError::TooLarge) <==> self.page_spec() >= 1 && (
            self.limit_spec() > MAX_BOUND || self.offset_spec() > MAX_BOUND),
            r matches Ok(p) ==> p.limit == self.limit_spec() && p.offset == self.offset_spec(),
    {
        let page: usize = match self.page {
            Some(p) => p,
            None => DEFAULT_PAGE,
        };
        let limit: usize = match self.limit {
            Some(l) => l,
            None => DEFAULT_LIMIT,
        };
        if page == 0 {
            return Err(PagingError::PageZero);
        }
        if limit > MAX_BOUND {
            return Err(PagingError::TooLarge);
        }
        let before: usize = page - 1;
        if limit == 0 {
            assert(self.offset_spec() == 0) by (nonlinear_arith)
                requires
                    self.offset_spec() == (page - 1) * limit,
                    limit == 0,
            ;
            return Ok(Paging { limit: 0, offset: 0 });
        }
        let most: usize = MAX_BOUND / limit;
        if before > most {
            assert(before * limit > MAX_BOUND) by (nonlinear_arith)
                requires
                    before >= most + 1,
                    most == MAX_BOUND / limit,
                    limit > 0,
            {
                assert(MAX_BOUND < (MAX_BOUND / limit + 1) * limit);
            }
            return Err(PagingError::TooLarge);
        }
        assert(before * limit <= MAX_BOUND) by (nonlinear_arith)
            requires
                before <= most,
                most == MAX_BOUND / limit,
                limit > 0,
        {
            assert((MAX_BOUND / limit) * limit <= MAX_BOUND);
            assert(before * limit <= most * limit);
        }
        let offset: usize = before * limit;
        Ok(Paging { limit: limit as i32, offset: offset as i32 })
    }
}

} // verus!
