//! The notes table as a map from id to row, what each keyed statement does to
//! it, and what the handlers reply when the database behaves as that table.

use vstd::prelude::*;
use crate::handler::{
    contains_text, create_start, delete_start, done, edit_start, expects, flag, get_start,
    list_start, step_spec, ActionView, DbErrorView, EventView, PhaseView, StatementView,
};
use crate::model::{all_complete, shown_all, RowView, Timestamp};
use crate::response::{
    error_reply, list_reply, not_found_text, note_reply, BodyView, ReplyView, STATUS_CONFLICT,
    STATUS_NOT_FOUND, STATUS_OK,
};
use crate::schema::{CreateView, FilterOptions, PatchView, MAX_BOUND};

verus! {

/// The notes table: each row under its id.
pub type Table = Map<Seq<char>, RowView>;

/// Each row is stored under its own id, carries both timestamps, and holds
/// its flag as 0 or 1.
pub open spec fn table_wf(t: Table) -> bool {
    forall|k: Seq<char>|
        #[trigger] t.contains_key(k) ==> t[k].id == k && t[k].is_complete() && (t[k].is_published
            == 0 || t[k].is_published == 1)
}

/// The rows that a page query gives: those from `offset` on, at most `limit`,
/// of the rows in id order.
pub open spec fn page_of(rows: Seq<RowView>, limit: int, offset: int) -> Seq<RowView> {
    let lo = if offset < rows.len() {
        offset
    } else {
        rows.len() as int
    };
    let hi = if offset + limit < rows.len() {
        offset + limit
    } else {
        rows.len() as int
    };
    rows.subrange(lo, hi)
}

/// A row after an update of its three mutable fields; the database stamps
/// `updated_at` only where a value changed.
pub open spec fn updated_row(
    old: RowView,
    title: Seq<char>,
    content: Seq<char>,
    is_published: i8,
    now: Timestamp,
) -> RowView {
    let changed = old.title != title || old.content != content || old.is_published
        != is_published;
    RowView {
        id: old.id,
        title,
        content,
        is_published,
        created_at: old.created_at,
        updated_at: if changed {
            Some(now)
        } else {
            old.updated_at
        },
    }
}

/// The database's answer to a keyed statement and the table after it. `now`
/// is the time it stamps on what it writes; `dup` is its text for a duplicate
/// key. Page queries are described by `page_of` and not answered here.
pub open spec fn answer(t: Table, s: StatementView, now: Timestamp, dup: Seq<char>) -> (
    EventView,
    Table,
) {
    match s {
        StatementView::SelectById { id } => if t.contains_key(id) {
            (EventView::Row(t[id]), t)
        } else {
            (EventView::Failed(DbErrorView::RowNotFound), t)
        },
        StatementView::Insert { id, title, content, is_published } => if t.contains_key(id) {
            (EventView::Failed(DbErrorView::Other(dup)), t)
        } else {
            (
                EventView::Affected(1),
                t.insert(
                    id,
                    RowView {
                        id,
                        title,
                        content,
                        is_published,
                        created_at: Some(now),
                        updated_at: Some(now),
                    },
                ),
            )
        },
        StatementView::Update { id, title, content, is_published } => if t.contains_key(id) {
            (EventView::Affected(1), t.insert(id, updated_row(t[id], title, content, is_published, now)))
        } else {
            (EventView::Affected(0), t)
        },
        StatementView::Delete { id } => if t.contains_key(id) {
            (EventView::Affected(1), t.remove(id))
        } else {
            (EventView::Affected(0), t)
        },
        StatementView::SelectPage { .. } => arbitrary(),
    }
}

/// Runs a handler from phase `p` and action `a` against the table, for at
/// most `fuel` statements: the reply and the table afterwards.
pub open spec fn run(
    t: Table,
    p: PhaseView,
    a: ActionView,
    now: Timestamp,
    dup: Seq<char>,
    fuel: nat,
) -> (ReplyView, Table)
    decreases fuel,
{
    match a {
        ActionView::Reply(r) => (r, t),
        ActionView::Run(s) => if fuel == 0 {
            arbitrary()
        } else {
            let (e, t2) = answer(t, s, now, dup);
            if expects(p, e) {
                let (p2, a2) = step_spec(p, e);
                run(t2, p2, a2, now, dup, (fuel - 1) as nat)
            } else {
                arbitrary()
            }
        },
    }
}

/// A whole request against the table, from the handler's start.
pub open spec fn serve(t: Table, start: (PhaseView, ActionView), now: Timestamp, dup: Seq<char>) -> (
    ReplyView,
    Table,
) {
    run(t, start.0, start.1, now, dup, 4)
}

/// The row that creating a note stores.
pub open spec fn created_row(id: Seq<char>, body: CreateView, now: Timestamp) -> RowView {
    RowView {
        id,
        title: body.title,
        content: body.content,
        is_published: flag(body.is_published == Some(true)),
        created_at: Some(now),
        updated_at: Some(now),
    }
}

/// The row that an edit leaves: each field the patch sets replaces the stored
/// one, the others stay.
pub open spec fn patched_row(old: RowView, patch: PatchView, now: Timestamp) -> RowView {
    updated_row(
        old,
        match patch.title {
            Some(x) => x,
            None => old.title,
        },
        match patch.content {
            Some(x) => x,
            None => old.content,
        },
        flag(
            match patch.is_published {
                Some(b) => b,
                None => old.is_published != 0,
            },
        ),
        now,
    )
}

/// Creating a note under an id that no stored note has succeeds: the reply
/// shows a note with that id and the submitted title and content, and the
/// table gains exactly that row, so the id stays unique.
pub proof fn lemma_create_fresh(
    t: Table,
    id: Seq<char>,
    body: CreateView,
    now: Timestamp,
    dup: Seq<char>,
)
    requires
        table_wf(t),
        !t.contains_key(id),
    ensures
        serve(t, create_start(id, body), now, dup) == (
            note_reply(created_row(id, body, now).shown()),
            t.insert(id, created_row(id, body, now)),
        ),
        created_row(id, body, now).shown().id == id,
        created_row(id, body, now).shown().title == body.title,
        created_row(id, body, now).shown().content == body.content,
        table_wf(t.insert(id, created_row(id, body, now))),
{
    reveal_with_fuel(run, 5);
    let row = created_row(id, body, now);
    let ins = StatementView::Insert {
        id,
        title: body.title,
        content: body.content,
        is_published: flag(
            match body.is_published {
                Some(b) => b,
                None => false,
            },
        ),
    };
    assert(create_start(id, body).1 == ActionView::Run(ins));
    assert(answer(t, ins, now, dup).1 == t.insert(id, row));
    assert(t.insert(id, row).contains_key(id));
    assert(t.insert(id, row)[id] == row);
    assert(table_wf(t.insert(id, row))) by {
        assert forall|k: Seq<char>| #[trigger] t.insert(id, row).contains_key(k) implies t.insert(
            id,
            row,
        )[k].id == k && t.insert(id, row)[k].is_complete() && (t.insert(id, row)[k].is_published
            == 0 || t.insert(id, row)[k].is_published == 1) by {
            if k != id {
                assert(t.contains_key(k));
            }
        }
    }
}

/// Creating a note under an id that a stored note has, where the database
/// names the duplicate key in its error, is a conflict and leaves the table
/// as it was.
pub proof fn lemma_create_duplicate(
    t: Table,
    id: Seq<char>,
    body: CreateView,
    now: Timestamp,
    dup: Seq<char>,
)
    requires
        t.contains_key(id),
        contains_text(dup, "Duplicate entry"@),
    ensures
        serve(t, create_start(id, body), now, dup) == (
            error_reply(STATUS_CONFLICT, "error"@, "Note already exists"@),
            t,
        ),
{
    reveal_with_fuel(run, 5);
}

/// Fetching, editing or deleting an id that no stored note has is answered
/// with not found, and the table stays as it was.
pub proof fn lemma_missing_id_not_found(
    t: Table,
    id: Seq<char>,
    patch: PatchView,
    now: Timestamp,
    dup: Seq<char>,
)
    requires
        !t.contains_key(id),
    ensures
        serve(t, get_start(id), now, dup) == (
            error_reply(STATUS_NOT_FOUND, "fail"@, not_found_text(id)),
            t,
        ),
        serve(t, edit_start(id, patch), now, dup) == (
            error_reply(STATUS_NOT_FOUND, "error"@, not_found_text(id)),
            t,
        ),
        serve(t, delete_start(id), now, dup) == (
            error_reply(STATUS_NOT_FOUND, "error"@, not_found_text(id)),
            t,
        ),
        serve(t, get_start(id), now, dup).0.code == STATUS_NOT_FOUND,
        serve(t, edit_start(id, patch), now, dup).0.code == STATUS_NOT_FOUND,
        serve(t, delete_start(id), now, dup).0.code == STATUS_NOT_FOUND,
{
    reveal_with_fuel(run, 5);
}

/// Editing a stored note replaces the fields the patch sets and keeps the
/// others; a patch that sets nothing shows the note as it was and leaves the
/// table unchanged.
pub proof fn lemma_edit_patches(
    t: Table,
    id: Seq<char>,
    patch: PatchView,
    now: Timestamp,
    dup: Seq<char>,
)
    requires
        table_wf(t),
        t.contains_key(id),
    ensures
        serve(t, edit_start(id, patch), now, dup) == (
            note_reply(patched_row(t[id], patch, now).shown()),
            t.insert(id, patched_row(t[id], patch, now)),
        ),
        patch.title is None ==> patched_row(t[id], patch, now).title == t[id].title,
        patch.content is None ==> patched_row(t[id], patch, now).content == t[id].content,
        patch.is_published is None ==> patched_row(t[id], patch, now).is_published
            == t[id].is_published,
        patched_row(t[id], patch, now).created_at == t[id].created_at,
        patch == (PatchView { title: None, content: None, is_published: None }) ==> serve(
            t,
            edit_start(id, patch),
            now,
            dup,
        ) == (note_reply(t[id].shown()), t),
{
    reveal_with_fuel(run, 5);
    let old = t[id];
    let row = patched_row(old, patch, now);
    assert(t.insert(id, row).contains_key(id));
    assert(t.insert(id, row)[id] == row);
    assert(row.is_complete());
    if patch == (PatchView { title: None, content: None, is_published: None }) {
        assert(row == old);
        assert(t.insert(id, row) =~= t);
    }
}

/// After a note is deleted, fetching it is answered with not found.
pub proof fn lemma_delete_then_get(t: Table, id: Seq<char>, now: Timestamp, dup: Seq<char>)
    ensures
        serve(serve(t, delete_start(id), now, dup).1, get_start(id), now, dup).0 == error_reply(
            STATUS_NOT_FOUND,
            "fail"@,
            not_found_text(id),
        ),
        t.contains_key(id) ==> serve(t, delete_start(id), now, dup) == (
            ReplyView { code: STATUS_OK, body: BodyView::Empty },
            t.remove(id),
        ),
{
    reveal_with_fuel(run, 5);
    assert(!t.remove(id).contains_key(id));
}

/// Listing page `P` with limit `L` asks for `L` rows from row `(P - 1) * L`
/// on; given the rows in id order, the reply shows exactly the rows at those
/// places, in order, and at most `L` of them.
pub proof fn lemma_list_page(opts: FilterOptions, rows: Seq<RowView>)
    requires
        all_complete(rows),
        opts.page_spec() >= 1,
        opts.limit_spec() <= MAX_BOUND,
        opts.offset_spec() <= MAX_BOUND,
    ensures
        opts.offset_spec() >= 0,
        list_start(opts) == (
            PhaseView::ListAwaitRows,
            ActionView::Run(
                StatementView::SelectPage {
                    limit: opts.limit_spec() as i32,
                    offset: opts.offset_spec() as i32,
                },
            ),
        ),
        step_spec(
            PhaseView::ListAwaitRows,
            EventView::Rows(page_of(rows, opts.limit_spec(), opts.offset_spec())),
        ) == done(list_reply(shown_all(page_of(rows, opts.limit_spec(), opts.offset_spec())))),
        page_of(rows, opts.limit_spec(), opts.offset_spec()).len() <= opts.limit_spec(),
        forall|i: int|
            0 <= i < page_of(rows, opts.limit_spec(), opts.offset_spec()).len() ==> #[trigger] page_of(
                rows,
                opts.limit_spec(),
                opts.offset_spec(),
            )[i] == rows[opts.offset_spec() + i],
{
    let l = opts.limit_spec();
    let o = opts.offset_spec();
    assert(o >= 0) by (nonlinear_arith)
        requires
            o == (opts.page_spec() - 1) * l,
            opts.page_spec() >= 1,
            l >= 0,
    ;
    let page = page_of(rows, l, o);
    assert(all_complete(page));
}

} // verus!
