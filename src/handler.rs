//! The decisions of each request handler. A handler is a machine: it starts
//! from the request, names a SQL statement to run, and on each answer of the
//! database either names the next statement or gives the reply. Whoever runs
//! the machine runs the statements; the machine itself does no I/O.

use vstd::prelude::*;
use crate::model::{all_complete, row_views, shown_all, to_note_response, to_note_responses, NoteModel, RowView};
use crate::response::{
    error_reply, error_response, list_reply, list_response, not_found_message, not_found_text,
    note_reply, note_response, ApiResponse, Body, BodyView, ReplyView, STATUS_BAD_REQUEST,
    STATUS_CONFLICT, STATUS_INTERNAL_SERVER_ERROR, STATUS_NOT_FOUND, STATUS_OK,
};
use crate::schema::{
    CreateNoteSchema, CreateView, FilterOptions, PagingError, PatchView, UpdateNoteSchema,
    MAX_BOUND,
};

verus! {

/// A failed statement: no row where one was expected, or any other error,
/// with the database's text for it.
#[derive(Debug)]
pub enum DbError {
    RowNotFound,
    Other(String),
}

/// A statement for the notes table, with its bound parameters.
#[derive(Debug)]
pub enum Statement {
    /// Up to `limit` notes in id order, skipping the first `offset`.
    SelectPage { limit: i32, offset: i32 },
    /// A new row; the database fills in both timestamps.
    Insert { id: String, title: String, content: String, is_published: i8 },
    /// The row with this id.
    SelectById { id: String },
    /// Overwrite the three mutable fields of the row with this id.
    Update { id: String, title: String, content: String, is_published: i8 },
    /// Remove the row with this id.
    Delete { id: String },
}

/// What a handler asks for next.
#[derive(Debug)]
pub enum Action {
    Run(Statement),
    Reply(ApiResponse),
}

/// How the database answered the last statement.
#[derive(Debug)]
pub enum Event {
    /// The rows of a page.
    Rows(Vec<NoteModel>),
    /// The one row asked for.
    Row(NoteModel),
    /// How many rows a write matched.
    Affected(u64),
    /// The statement failed.
    Failed(DbError),
}

/// Where a handler stands: which answer it waits for, with what it keeps.
#[derive(Debug)]
pub enum Phase {
    ListAwaitRows,
    CreateAwaitInsert { id: String },
    CreateAwaitRow,
    GetAwaitRow { id: String },
    EditAwaitRow { id: String, patch: UpdateNoteSchema },
    EditAwaitUpdate { id: String },
    EditAwaitUpdated,
    DeleteAwaitResult { id: String },
    Finished,
}

pub ghost enum DbErrorView {
    RowNotFound,
    Other(Seq<char>),
}

pub ghost enum StatementView {
    SelectPage { limit: i32, offset: i32 },
    Insert { id: Seq<char>, title: Seq<char>, content: Seq<char>, is_published: i8 },
    SelectById { id: Seq<char> },
    Update { id: Seq<char>, title: Seq<char>, content: Seq<char>, is_published: i8 },
    Delete { id: Seq<char> },
}

pub ghost enum ActionView {
    Run(StatementView),
    Reply(ReplyView),
}

pub ghost enum EventView {
    Rows(Seq<RowView>),
    Row(RowView),
    Affected(u64),
    Failed(DbErrorView),
}

pub ghost enum PhaseView {
    ListAwaitRows,
    CreateAwaitInsert { id: Seq<char> },
    CreateAwaitRow,
    GetAwaitRow { id: Seq<char> },
    EditAwaitRow { id: Seq<char>, patch: PatchView },
    EditAwaitUpdate { id: Seq<char> },
    EditAwaitUpdated,
    DeleteAwaitResult { id: Seq<char> },
    Finished,
}

impl View for DbError {
    type V = DbErrorView;

    open spec fn view(&self) -> DbErrorView {
        match self {
            DbError::RowNotFound => DbErrorView::RowNotFound,
            DbError::Other(t) => DbErrorView::Other(t@),
        }
    }
}

impl View for Statement {
    type V = StatementView;

    open spec fn view(&self) -> StatementView {
        match self {
            Statement::SelectPage { limit, offset } => StatementView::SelectPage {
                limit: *limit,
                offset: *offset,
            },
            Statement::Insert { id, title, content, is_published } => StatementView::Insert {
                id: id@,
                title: title@,
                content: content@,
                is_published: *is_published,
            },
            Statement::SelectById { id } => StatementView::SelectById { id: id@ },
            Statement::Update { id, title, content, is_published } => StatementView::Update {
                id: id@,
                title: title@,
                content: content@,
                is_published: *is_published,
            },
            Statement::Delete { id } => StatementView::Delete { id: id@ },
        }
    }
}

impl View for Action {
    type V = ActionView;

    open spec fn view(&self) -> ActionView {
        match self {
            Action::Run(s) => ActionView::Run(s@),
            Action::Reply(r) => ActionView::Reply(r@),
        }
    }
}

impl View for Event {
    type V = EventView;

    open spec fn view(&self) -> EventView {
        match self {
            Event::Rows(rows) => EventView::Rows(row_views(rows@)),
            Event::Row(row) => EventView::Row(row@),
            Event::Affected(n) => EventView::Affected(*n),
            Event::Failed(e) => EventView::Failed(e@),
        }
    }
}

impl View for Phase {
    type V = PhaseView;

    open spec fn view(&self) -> PhaseView {
        match self {
            Phase::ListAwaitRows => PhaseView::ListAwaitRows,
            Phase::CreateAwaitInsert { id } => PhaseView::CreateAwaitInsert { id: id@ },
            Phase::CreateAwaitRow => PhaseView::CreateAwaitRow,
            Phase::GetAwaitRow { id } => PhaseView::GetAwaitRow { id: id@ },
            Phase::EditAwaitRow { id, patch } => PhaseView::EditAwaitRow { id: id@, patch: patch@ },
            Phase::EditAwaitUpdate { id } => PhaseView::EditAwaitUpdate { id: id@ },
            Phase::EditAwaitUpdated => PhaseView::EditAwaitUpdated,
            Phase::DeleteAwaitResult { id } => PhaseView::DeleteAwaitResult { id: id@ },
            Phase::Finished => PhaseView::Finished,
        }
    }
}

/// The table's flag for a boolean.
pub open spec fn flag(b: bool) -> i8 {
    if b {
        1
    } else {
        0
    }
}

/// The database's text for a failure.
pub open spec fn error_text(e: DbErrorView) -> Seq<char> {
    match e {
        DbErrorView::RowNotFound => "RowNotFound"@,
        DbErrorView::Other(t) => t,
    }
}

/// `needle` occurs in `hay` as a contiguous run.
pub open spec fn contains_text(hay: Seq<char>, needle: Seq<char>) -> bool {
    exists|i: int|
        0 <= i && i + needle.len() <= hay.len() && #[trigger] hay.subrange(i, i + needle.len())
            == needle
}

/// The reply to a failed statement that nothing more specific covers.
pub open spec fn internal_reply(e: DbErrorView) -> ReplyView {
    error_reply(STATUS_INTERNAL_SERVER_ERROR, "error"@, error_text(e))
}

/// The reply to an insert that failed: a duplicate key is a conflict.
pub open spec fn insert_failure_reply(e: DbErrorView) -> ReplyView {
    if contains_text(error_text(e), "Duplicate entry"@) {
        error_reply(STATUS_CONFLICT, "error"@, "Note already exists"@)
    } else {
        internal_reply(e)
    }
}

/// The update that an edit makes of the stored row: each field the patch sets
/// replaces the stored one, the others stay.
pub open spec fn update_of(id: Seq<char>, row: RowView, patch: PatchView) -> StatementView {
    StatementView::Update {
        id,
        title: match patch.title {
            Some(t) => t,
            None => row.title,
        },
        content: match patch.content {
            Some(c) => c,
            None => row.content,
        },
        is_published: flag(
            match patch.is_published {
                Some(b) => b,
                None => row.is_published != 0,
            },
        ),
    }
}

/// The handler is done, with this reply.
pub open spec fn done(r: ReplyView) -> (PhaseView, ActionView) {
    (PhaseView::Finished, ActionView::Reply(r))
}

/// The text of a paging refusal.
pub open spec fn paging_error_text(e: PagingError) -> Seq<char> {
    match e {
        PagingError::PageZero => "Pages are numbered from 1"@,
        PagingError::TooLarge => "Page or limit is too large"@,
    }
}

/// How a listing starts.
pub open spec fn list_start(opts: FilterOptions) -> (PhaseView, ActionView) {
    if opts.page_spec() == 0 {
        done(error_reply(STATUS_BAD_REQUEST, "fail"@, paging_error_text(PagingError::PageZero)))
    } else if opts.limit_spec() > MAX_BOUND || opts.offset_spec() > MAX_BOUND {
        done(error_reply(STATUS_BAD_REQUEST, "fail"@, paging_error_text(PagingError::TooLarge)))
    } else {
        (
            PhaseView::ListAwaitRows,
            ActionView::Run(
                StatementView::SelectPage {
                    limit: opts.limit_spec() as i32,
                    offset: opts.offset_spec() as i32,
                },
            ),
        )
    }
}

/// How creating a note under the given id starts.
pub open spec fn create_start(id: Seq<char>, body: CreateView) -> (PhaseView, ActionView) {
    (
        PhaseView::CreateAwaitInsert { id },
        ActionView::Run(
            StatementView::Insert {
                id,
                title: body.title,
                content: body.content,
                is_published: flag(
                    match body.is_published {
                        Some(b) => b,
                        None => false,
                    },
                ),
            },
        ),
    )
}

/// How fetching a note starts.
pub open spec fn get_start(id: Seq<char>) -> (PhaseView, ActionView) {
    (PhaseView::GetAwaitRow { id }, ActionView::Run(StatementView::SelectById { id }))
}

/// How editing a note starts.
pub open spec fn edit_start(id: Seq<char>, patch: PatchView) -> (PhaseView, ActionView) {
    (PhaseView::EditAwaitRow { id, patch }, ActionView::Run(StatementView::SelectById { id }))
}

/// How deleting a note starts.
pub open spec fn delete_start(id: Seq<char>) -> (PhaseView, ActionView) {
    (PhaseView::DeleteAwaitResult { id }, ActionView::Run(StatementView::Delete { id }))
}

/// The answers a phase can get: the kind of answer its statement gives, and
/// rows that are shown carry both timestamps.
pub open spec fn expects(p: PhaseView, e: EventView) -> bool {
    match p {
        PhaseView::ListAwaitRows => match e {
            EventView::Rows(rows) => all_complete(rows),
            EventView::Failed(_) => true,
            _ => false,
        },
        PhaseView::CreateAwaitRow | PhaseView::GetAwaitRow { .. } | PhaseView::EditAwaitUpdated => {
            match e {
                EventView::Row(row) => row.is_complete(),
                EventView::Failed(_) => true,
                _ => false,
            }
        },
        PhaseView::EditAwaitRow { .. } => e is Row || e is Failed,
        PhaseView::CreateAwaitInsert { .. } | PhaseView::EditAwaitUpdate { .. }
        | PhaseView::DeleteAwaitResult { .. } => e is Affected || e is Failed,
        PhaseView::Finished => false,
    }
}

/// The next phase and action of a handler after the database's answer.
pub open spec fn step_spec(p: PhaseView, e: EventView) -> (PhaseView, ActionView) {
    match p {
        PhaseView::ListAwaitRows => match e {
            EventView::Rows(rows) => done(list_reply(shown_all(rows))),
            EventView::Failed(err) => done(
                error_reply(
                    STATUS_INTERNAL_SERVER_ERROR,
                    "error"@,
                    "Database error: "@ + error_text(err),
                ),
            ),
            _ => arbitrary(),
        },
        PhaseView::CreateAwaitInsert { id } => match e {
            EventView::Affected(_) => (
                PhaseView::CreateAwaitRow,
                ActionView::Run(StatementView::SelectById { id }),
            ),
            EventView::Failed(err) => done(insert_failure_reply(err)),
            _ => arbitrary(),
        },
        PhaseView::CreateAwaitRow | PhaseView::EditAwaitUpdated => match e {
            EventView::Row(row) => done(note_reply(row.shown())),
            EventView::Failed(err) => done(internal_reply(err)),
            _ => arbitrary(),
        },
        PhaseView::GetAwaitRow { id } => match e {
            EventView::Row(row) => done(note_reply(row.shown())),
            EventView::Failed(DbErrorView::RowNotFound) => done(
                error_reply(STATUS_NOT_FOUND, "fail"@, not_found_text(id)),
            ),
            EventView::Failed(err) => done(internal_reply(err)),
            _ => arbitrary(),
        },
        PhaseView::EditAwaitRow { id, patch } => match e {
            EventView::Row(row) => (
                PhaseView::EditAwaitUpdate { id },
                ActionView::Run(update_of(id, row, patch)),
            ),
            EventView::Failed(DbErrorView::RowNotFound) => done(
                error_reply(STATUS_NOT_FOUND, "error"@, not_found_text(id)),
            ),
            EventView::Failed(err) => done(internal_reply(err)),
            _ => arbitrary(),
        },
        PhaseView::EditAwaitUpdate { id } => match e {
            EventView::Affected(n) => if n == 0 {
                done(error_reply(STATUS_NOT_FOUND, "error"@, not_found_text(id)))
            } else {
                (PhaseView::EditAwaitUpdated, ActionView::Run(StatementView::SelectById { id }))
            },
            EventView::Failed(err) => done(internal_reply(err)),
            _ => arbitrary(),
        },
        PhaseView::DeleteAwaitResult { id } => match e {
            EventView::Affected(n) => if n == 0 {
                done(error_reply(STATUS_NOT_FOUND, "error"@, not_found_text(id)))
            } else {
                done(ReplyView { code: STATUS_OK, body: BodyView::Empty })
            },
            EventView::Failed(err) => done(internal_reply(err)),
            _ => arbitrary(),
        },
        PhaseView::Finished => arbitrary(),
    }
}

/// Whether `needle` occurs in `hay`.
pub fn text_contains(hay: &str, needle: &str) -> (r: bool)
    ensures
        r == contains_text(hay@, needle@),
{
    let n: usize = hay.unicode_len();
    let m: usize = needle.unicode_len();
    if m > n {
        assert forall|i: int|
            0 <= i && i + needle@.len() <= hay@.len() implies #[trigger] hay@.subrange(
            i,
            i + needle@.len(),
        ) != needle@ by {}
        return false;
    }
    let mut i: usize = 0;
    while i <= n - m
        invariant
            n == hay@.len(),
            m == needle@.len(),
            m <= n,
            i <= n - m + 1,
            forall|k: int| 0 <= k < i ==> #[trigger] hay@.subrange(k, k + m) != needle@,
        decreases n - i,
    {
        let mut j: usize = 0;
        let mut same = true;
        while j < m && same
            invariant
                n == hay@.len(),
                m == needle@.len(),
                i + m <= n,
                j <= m,
                same ==> forall|k: int| 0 <= k < j ==> hay@[i + k] == needle@[k],
                !same ==> exists|k: int| 0 <= k < m && hay@[i + k] != needle@[k],
            decreases m - j + (if same { 1int } else { 0int }),
        {
            if hay.get_char(i + j) != needle.get_char(j) {
                same = false;
            } else {
                j = j + 1;
            }
        }
        if same {
            assert(hay@.subrange(i as int, i + m) =~= needle@);
            return true;
        }
        proof {
            let k = choose|k: int| 0 <= k < m && hay@[i + k] != needle@[k];
            assert(hay@.subrange(i as int, i + m)[k] != needle@[k]);
        }
        i = i + 1;
    }
    false
}

/// The database's text for a failure.
pub fn error_message(e: DbError) -> (r: String)
    ensures
        r@ == error_text(e@),
{
    match e {
        DbError::RowNotFound => String::from_str("RowNotFound"),
        DbError::Other(t) => t,
    }
}

/// The handler is done, with this reply.
fn finish(r: ApiResponse) -> (out: (Phase, Action))
    ensures
        (out.0@, out.1@) == done(r@),
{
    (Phase::Finished, Action::Reply(r))
}

/// The reply to a failed statement that nothing more specific covers.
fn internal_response(e: DbError) -> (r: ApiResponse)
    ensures
        r@ == internal_reply(e@),
{
    error_response(STATUS_INTERNAL_SERVER_ERROR, "error", error_message(e))
}

/// The reply to a failed insert: a conflict where the database's text names
/// a duplicate key, else an internal error.
pub fn insert_failure_response(e: DbError) -> (r: ApiResponse)
    ensures
        r@ == insert_failure_reply(e@),
{
    let text = error_message(e);
    if text_contains(text.as_str(), "Duplicate entry") {
        error_response(STATUS_CONFLICT, "error", String::from_str("Note already exists"))
    } else {
        error_response(STATUS_INTERNAL_SERVER_ERROR, "error", text)
    }
}

/// The text form of a random (version 4) UUID: 36 characters, lowercase hex
/// digits in groups of 8, 4, 4, 4 and 12 joined by hyphens, with the version
/// digit 4 and a variant digit among 8, 9, a and b.
pub open spec fn is_uuid_v4_text(s: Seq<char>) -> bool {
    &&& s.len() == 36
    &&& forall|i: int|
        0 <= i < 36 ==> if i == 8 || i == 13 || i == 18 || i == 23 {
            s[i] == '-'
        } else {
            ('0' <= #[trigger] s[i] <= '9') || ('a' <= s[i] <= 'f')
        }
    &&& s[14] == '4'
    &&& (s[19] == '8' || s[19] == '9' || s[19] == 'a' || s[19] == 'b')
}

/// Relies on uuid's `Uuid::new_v4` for a random identifier and on its
/// `Display`, which writes the hyphenated lowercase form. Nothing is promised
/// of which identifier comes out; `new_v4` panics only where the system has
/// no source of random bytes.
#[verifier::external_body]
fn new_note_id() -> (r: String)
    ensures
        is_uuid_v4_text(r@),
{
    uuid::Uuid::new_v4().to_string()
}

/// Starts a listing: the page's query, or a refusal of the paging options.
pub fn note_list_handler(opts: &FilterOptions) -> (r: (Phase, Action))
    ensures
        (r.0@, r.1@) == list_start(*opts),
{
    match opts.paging() {
        Ok(p) => (
            Phase::ListAwaitRows,
            Action::Run(Statement::SelectPage { limit: p.limit, offset: p.offset }),
        ),
        Err(PagingError::PageZero) => finish(
            error_response(
                STATUS_BAD_REQUEST,
                "fail",
                String::from_str("Pages are numbered from 1"),
            ),
        ),
        Err(PagingError::TooLarge) => finish(
            error_response(
                STATUS_BAD_REQUEST,
                "fail",
                String::from_str("Page or limit is too large"),
            ),
        ),
    }
}

/// Starts creating a note under a fresh random id.
pub fn create_note_handler(body: CreateNoteSchema) -> (r: (Phase, Action))
    ensures
        r.0 is CreateAwaitInsert,
        is_uuid_v4_text(r.0->CreateAwaitInsert_id@),
        (r.0@, r.1@) == create_start(r.0->CreateAwaitInsert_id@, body@),
{
    let id = new_note_id();
    create_note_with_id(body, id)
}

/// Starts creating a note under the given id.
pub fn create_note_with_id(body: CreateNoteSchema, id: String) -> (r: (Phase, Action))
    ensures
        r.0 == (Phase::CreateAwaitInsert { id }),
        (r.0@, r.1@) == create_start(id@, body@),
{
    let is_published: i8 = match body.is_published {
        Some(true) => 1,
        _ => 0,
    };
    let statement = Statement::Insert {
        id: id.clone(),
        title: body.title,
        content: body.content,
        is_published,
    };
    (Phase::CreateAwaitInsert { id }, Action::Run(statement))
}

/// Starts fetching the note with this id.
pub fn get_note_handler(id: String) -> (r: (Phase, Action))
    ensures
        (r.0@, r.1@) == get_start(id@),
{
    let statement = Statement::SelectById { id: id.clone() };
    (Phase::GetAwaitRow { id }, Action::Run(statement))
}

/// Starts editing the note with this id.
pub fn edit_note_handler(id: String, patch: UpdateNoteSchema) -> (r: (Phase, Action))
    ensures
        (r.0@, r.1@) == edit_start(id@, patch@),
{
    let statement = Statement::SelectById { id: id.clone() };
    (Phase::EditAwaitRow { id, patch }, Action::Run(statement))
}

/// Starts deleting the note with this id.
pub fn delete_note_handler(id: String) -> (r: (Phase, Action))
    ensures
        (r.0@, r.1@) == delete_start(id@),
{
    let statement = Statement::Delete { id: id.clone() };
    (Phase::DeleteAwaitResult { id }, Action::Run(statement))
}

/// The update an edit makes of the stored row.
fn merged_update(id: String, row: NoteModel, patch: UpdateNoteSchema) -> (r: Statement)
    ensures
        r@ == update_of(id@, row@, patch@),
{
    let is_published: bool = match patch.is_published {
        Some(b) => b,
        None => row.is_published != 0,
    };
    let title = match patch.title {
        Some(t) => t,
        None => row.title,
    };
    let content = match patch.content {
        Some(c) => c,
        None => row.content,
    };
    Statement::Update { id, title, content, is_published: if is_published { 1 } else { 0 } }
}

/// Whether `step` can take this answer in this phase.
pub fn expects_event(phase: &Phase, event: &Event) -> (r: bool)
    ensures
        r == expects(phase@, event@),
{
    match phase {
        Phase::ListAwaitRows => match event {
            Event::Rows(rows) => {
                let ghost views = row_views(rows@);
                assert(event@ == EventView::Rows(views));
                let mut i: usize = 0;
                while i < rows.len()
                    invariant
                        i <= rows.len(),
                        views == row_views(rows@),
                        event@ == EventView::Rows(views),
                        phase@ == PhaseView::ListAwaitRows,
                        forall|j: int| 0 <= j < i ==> (#[trigger] views[j]).is_complete(),
                    decreases rows.len() - i,
                {
                    assert(views[i as int] == rows@[i as int]@);
                    if rows[i].created_at.is_none() || rows[i].updated_at.is_none() {
                        assert(!views[i as int].is_complete());
                        assert(!all_complete(views));
                        return false;
                    }
                    i = i + 1;
                }
                true
            },
            Event::Failed(_) => true,
            _ => false,
        },
        Phase::CreateAwaitRow | Phase::GetAwaitRow { .. } | Phase::EditAwaitUpdated => {
            match event {
                Event::Row(row) => row.created_at.is_some() && row.updated_at.is_some(),
                Event::Failed(_) => true,
                _ => false,
            }
        },
        Phase::EditAwaitRow { .. } => match event {
            Event::Row(_) | Event::Failed(_) => true,
            _ => false,
        },
        Phase::CreateAwaitInsert { .. } | Phase::EditAwaitUpdate { .. }
        | Phase::DeleteAwaitResult { .. } => match event {
            Event::Affected(_) | Event::Failed(_) => true,
            _ => false,
        },
        Phase::Finished => false,
    }
}

/// Advances a handler by the database's answer to its last statement.
pub fn step(phase: Phase, event: Event) -> (r: (Phase, Action))
    requires
        expects(phase@, event@),
    ensures
        (r.0@, r.1@) == step_spec(phase@, event@),
{
    // `expects` rules out the answers that the `_` arms catch; nothing they
    // return is ever produced.
    match phase {
        Phase::ListAwaitRows => match event {
            Event::Rows(rows) => finish(list_response(to_note_responses(&rows))),
            Event::Failed(e) => {
                let mut message = String::from_str("Database error: ");
                let text = error_message(e);
                message.append(text.as_str());
                finish(error_response(STATUS_INTERNAL_SERVER_ERROR, "error", message))
            },
            _ => (Phase::Finished, Action::Run(Statement::SelectPage { limit: 0, offset: 0 })),
        },
        Phase::CreateAwaitInsert { id } => match event {
            Event::Affected(_) => (
                Phase::CreateAwaitRow,
                Action::Run(Statement::SelectById { id }),
            ),
            Event::Failed(e) => finish(insert_failure_response(e)),
            _ => (Phase::Finished, Action::Run(Statement::SelectById { id })),
        },
        Phase::CreateAwaitRow | Phase::EditAwaitUpdated => match event {
            Event::Row(row) => finish(note_response(to_note_response(&row))),
            Event::Failed(e) => finish(internal_response(e)),
            _ => (Phase::Finished, Action::Run(Statement::SelectPage { limit: 0, offset: 0 })),
        },
        Phase::GetAwaitRow { id } => match event {
            Event::Row(row) => finish(note_response(to_note_response(&row))),
            Event::Failed(DbError::RowNotFound) => finish(
                error_response(STATUS_NOT_FOUND, "fail", not_found_message(id.as_str())),
            ),
            Event::Failed(e) => finish(internal_response(e)),
            _ => (Phase::Finished, Action::Run(Statement::SelectById { id })),
        },
        Phase::EditAwaitRow { id, patch } => match event {
            Event::Row(row) => {
                let statement = merged_update(id.clone(), row, patch);
                (Phase::EditAwaitUpdate { id }, Action::Run(statement))
            },
            Event::Failed(DbError::RowNotFound) => finish(
                error_response(STATUS_NOT_FOUND, "error", not_found_message(id.as_str())),
            ),
            Event::Failed(e) => finish(internal_response(e)),
            _ => (Phase::Finished, Action::Run(Statement::SelectById { id })),
        },
        Phase::EditAwaitUpdate { id } => match event {
            Event::Affected(n) => if n == 0 {
                finish(error_response(STATUS_NOT_FOUND, "error", not_found_message(id.as_str())))
            } else {
                (Phase::EditAwaitUpdated, Action::Run(Statement::SelectById { id }))
            },
            Event::Failed(e) => finish(internal_response(e)),
            _ => (Phase::Finished, Action::Run(Statement::SelectById { id })),
        },
        Phase::DeleteAwaitResult { id } => match event {
            Event::Affected(n) => if n == 0 {
                finish(error_response(STATUS_NOT_FOUND, "error", not_found_message(id.as_str())))
            } else {
                finish(ApiResponse { code: STATUS_OK, body: Body::Empty })
            },
            Event::Failed(e) => finish(internal_response(e)),
            _ => (Phase::Finished, Action::Run(Statement::SelectById { id })),
        },
        Phase::Finished => (Phase::Finished, Action::Run(Statement::SelectPage { limit: 0, offset: 0 })),
    }
}

} // verus!
