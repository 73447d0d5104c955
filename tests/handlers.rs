use notes_api::handler::{
    create_note_handler, create_note_with_id, delete_note_handler, edit_note_handler,
    expects_event, get_note_handler, insert_failure_response, note_list_handler, step,
    text_contains, Action, DbError, Event, Phase, Statement,
};
use notes_api::model::{to_note_response, NoteModel, NoteModelResponse, Timestamp};
use notes_api::response::{health_check_handler, not_found_message, ApiResponse, Body};
use notes_api::schema::{CreateNoteSchema, FilterOptions, Paging, PagingError, UpdateNoteSchema};

const NOW: Timestamp = Timestamp { secs: 1_700_000_000, nanos: 0 };

/// A table kept in id order that answers statements as the database would.
struct FakeTable {
    rows: Vec<NoteModel>,
    now: Timestamp,
}

impl FakeTable {
    fn new() -> FakeTable {
        FakeTable { rows: Vec::new(), now: NOW }
    }

    fn position(&self, id: &str) -> Option<usize> {
        self.rows.iter().position(|r| r.id == id)
    }

    fn answer(&mut self, statement: Statement) -> Event {
        match statement {
            Statement::SelectPage { limit, offset } => {
                let rows = self
                    .rows
                    .iter()
                    .skip(offset as usize)
                    .take(limit as usize)
                    .cloned()
                    .collect();
                Event::Rows(rows)
            }
            Statement::Insert { id, title, content, is_published } => {
                if self.position(&id).is_some() {
                    return Event::Failed(DbError::Other(format!(
                        "error returned from database: 1062 (23000): Duplicate entry '{}' for key 'notes.PRIMARY'",
                        id
                    )));
                }
                self.rows.push(NoteModel {
                    id,
                    title,
                    content,
                    is_published,
                    created_at: Some(self.now),
                    updated_at: Some(self.now),
                });
                self.rows.sort_by(|a, b| a.id.cmp(&b.id));
                Event::Affected(1)
            }
            Statement::SelectById { id } => match self.position(&id) {
                Some(i) => Event::Row(self.rows[i].clone()),
                None => Event::Failed(DbError::RowNotFound),
            },
            Statement::Update { id, title, content, is_published } => match self.position(&id) {
                Some(i) => {
                    let now = self.now;
                    let row = &mut self.rows[i];
                    let changed = row.title != title
                        || row.content != content
                        || row.is_published != is_published;
                    row.title = title;
                    row.content = content;
                    row.is_published = is_published;
                    if changed {
                        row.updated_at = Some(now);
                    }
                    Event::Affected(1)
                }
                None => Event::Affected(0),
            },
            Statement::Delete { id } => match self.position(&id) {
                Some(i) => {
                    self.rows.remove(i);
                    Event::Affected(1)
                }
                None => Event::Affected(0),
            },
        }
    }

    fn serve(&mut self, start: (Phase, Action)) -> ApiResponse {
        let (mut phase, mut action) = start;
        loop {
            let statement = match action {
                Action::Reply(r) => return r,
                Action::Run(s) => s,
            };
            let event = self.answer(statement);
            assert!(expects_event(&phase, &event));
            let next = step(phase, event);
            phase = next.0;
            action = next.1;
        }
    }
}

fn row(id: &str, title: &str, content: &str, is_published: i8) -> NoteModel {
    NoteModel {
        id: id.to_string(),
        title: title.to_string(),
        content: content.to_string(),
        is_published,
        created_at: Some(Timestamp { secs: 100, nanos: 5 }),
        updated_at: Some(Timestamp { secs: 200, nanos: 7 }),
    }
}

fn create_body(title: &str, content: &str, is_published: Option<bool>) -> CreateNoteSchema {
    CreateNoteSchema { title: title.to_string(), content: content.to_string(), is_published }
}

fn patch(title: Option<&str>, content: Option<&str>, is_published: Option<bool>) -> UpdateNoteSchema {
    UpdateNoteSchema {
        title: title.map(|t| t.to_string()),
        content: content.map(|c| c.to_string()),
        is_published,
    }
}

fn shown(r: &ApiResponse) -> NoteModelResponse {
    assert_eq!(r.code, 200);
    match &r.body {
        Body::Note { status, note } => {
            assert_eq!(status, "success");
            note.clone()
        }
        other => panic!("expected a note, got {:?}", other),
    }
}

fn error_of(r: &ApiResponse) -> (u16, String, String) {
    match &r.body {
        Body::Error { status, message } => (r.code, status.clone(), message.clone()),
        other => panic!("expected an error, got {:?}", other),
    }
}

fn listed(r: &ApiResponse) -> Vec<String> {
    assert_eq!(r.code, 200);
    match &r.body {
        Body::List { status, count, notes } => {
            assert_eq!(status, "ok");
            assert_eq!(*count, notes.len());
            notes.iter().map(|n| n.id.clone()).collect()
        }
        other => panic!("expected a list, got {:?}", other),
    }
}

#[test]
fn health_check_reports_ok() {
    let r = health_check_handler();
    assert_eq!(r.code, 200);
    match r.body {
        Body::Health { status, message } => {
            assert_eq!(status, "ok");
            assert_eq!(message, "API Services");
        }
        other => panic!("unexpected body {:?}", other),
    }
}

#[test]
fn paging_defaults() {
    let opts = FilterOptions { page: None, limit: None };
    assert_eq!(opts.paging(), Ok(Paging { limit: 10, offset: 0 }));
}

#[test]
fn paging_offset_formula() {
    let opts = FilterOptions { page: Some(3), limit: Some(5) };
    assert_eq!(opts.paging(), Ok(Paging { limit: 5, offset: 10 }));
    let opts = FilterOptions { page: Some(4), limit: None };
    assert_eq!(opts.paging(), Ok(Paging { limit: 10, offset: 30 }));
}

#[test]
fn paging_refuses_page_zero() {
    let opts = FilterOptions { page: Some(0), limit: Some(5) };
    assert_eq!(opts.paging(), Err(PagingError::PageZero));
    let (phase, action) = note_list_handler(&opts);
    assert!(matches!(phase, Phase::Finished));
    match action {
        Action::Reply(r) => assert_eq!(
            error_of(&r),
            (400, "fail".to_string(), "Pages are numbered from 1".to_string())
        ),
        other => panic!("unexpected action {:?}", other),
    }
}

#[test]
fn paging_refuses_too_large() {
    let opts = FilterOptions { page: Some(1), limit: Some(2_147_483_648) };
    assert_eq!(opts.paging(), Err(PagingError::TooLarge));
    let opts = FilterOptions { page: Some(3), limit: Some(1_073_741_824) };
    assert_eq!(opts.paging(), Err(PagingError::TooLarge));
    let opts = FilterOptions { page: Some(2), limit: Some(2_147_483_647) };
    assert_eq!(opts.paging(), Ok(Paging { limit: 2_147_483_647, offset: 2_147_483_647 }));
    let opts = FilterOptions { page: Some(usize::MAX), limit: Some(0) };
    assert_eq!(opts.paging(), Ok(Paging { limit: 0, offset: 0 }));
}

#[test]
fn text_search() {
    assert!(text_contains("1062: Duplicate entry 'x'", "Duplicate entry"));
    assert!(text_contains("abc", ""));
    assert!(text_contains("abc", "abc"));
    assert!(!text_contains("ab", "abc"));
    assert!(!text_contains("Duplicate entr", "Duplicate entry"));
    assert!(text_contains("ééxé", "xé"));
}

#[test]
fn not_found_message_names_id() {
    assert_eq!(not_found_message("abc"), "Note with ID: abc not found");
}

#[test]
fn generated_id_is_uuid_text() {
    let (phase, action) = create_note_handler(create_body("A", "B", None));
    let id = match phase {
        Phase::CreateAwaitInsert { id } => id,
        other => panic!("unexpected phase {:?}", other),
    };
    assert_eq!(id.len(), 36);
    for (i, c) in id.chars().enumerate() {
        if i == 8 || i == 13 || i == 18 || i == 23 {
            assert_eq!(c, '-');
        } else {
            assert!(c.is_ascii_digit() || ('a'..='f').contains(&c));
        }
    }
    assert_eq!(id.chars().nth(14), Some('4'));
    match action {
        Action::Run(Statement::Insert { id: inserted, title, content, is_published }) => {
            assert_eq!(inserted, id);
            assert_eq!(title, "A");
            assert_eq!(content, "B");
            assert_eq!(is_published, 0);
        }
        other => panic!("unexpected action {:?}", other),
    }
    let (second, _) = create_note_handler(create_body("A", "B", None));
    match second {
        Phase::CreateAwaitInsert { id: other } => assert_ne!(other, id),
        other => panic!("unexpected phase {:?}", other),
    }
}

#[test]
fn full_note_lifecycle() {
    let mut table = FakeTable::new();
    let created = table.serve(create_note_handler(create_body("A", "B", None)));
    let note = shown(&created);
    assert_eq!(note.title, "A");
    assert_eq!(note.content, "B");
    assert!(!note.is_published);
    assert_eq!(note.id.len(), 36);

    let fetched = shown(&table.serve(get_note_handler(note.id.clone())));
    assert_eq!(fetched.id, note.id);
    assert_eq!(fetched.title, note.title);
    assert_eq!(fetched.content, note.content);
    assert_eq!(fetched.is_published, note.is_published);
    assert_eq!(fetched.created_at, note.created_at);
    assert_eq!(fetched.updated_at, note.updated_at);

    let edited = shown(&table.serve(edit_note_handler(note.id.clone(), patch(None, None, Some(true)))));
    assert_eq!(edited.title, "A");
    assert_eq!(edited.content, "B");
    assert!(edited.is_published);

    let deleted = table.serve(delete_note_handler(note.id.clone()));
    assert_eq!(deleted.code, 200);
    assert!(matches!(deleted.body, Body::Empty));

    let gone = table.serve(get_note_handler(note.id.clone()));
    assert_eq!(
        error_of(&gone),
        (404, "fail".to_string(), format!("Note with ID: {} not found", note.id))
    );
}

#[test]
fn create_keeps_title_content_and_flag() {
    let mut table = FakeTable::new();
    let note = shown(&table.serve(create_note_with_id(create_body("T", "C", Some(true)), "n1".to_string())));
    assert_eq!(note.id, "n1");
    assert_eq!(note.title, "T");
    assert_eq!(note.content, "C");
    assert!(note.is_published);
    assert_eq!(note.created_at, NOW);
    assert_eq!(table.rows.len(), 1);
}

#[test]
fn create_with_colliding_id_is_conflict() {
    let mut table = FakeTable::new();
    table.rows.push(row("n1", "old", "kept", 0));
    let r = table.serve(create_note_with_id(create_body("new", "other", None), "n1".to_string()));
    assert_eq!(
        error_of(&r),
        (409, "error".to_string(), "Note already exists".to_string())
    );
    assert_eq!(table.rows.len(), 1);
    assert_eq!(table.rows[0].title, "old");
    assert_eq!(table.rows[0].content, "kept");
}

#[test]
fn insert_failure_without_duplicate_is_internal() {
    let r = insert_failure_response(DbError::Other("connection reset".to_string()));
    assert_eq!(
        error_of(&r),
        (500, "error".to_string(), "connection reset".to_string())
    );
    let r = insert_failure_response(DbError::Other("Duplicate entry 'x' for key".to_string()));
    assert_eq!(r.code, 409);
}

#[test]
fn missing_id_is_not_found() {
    let mut table = FakeTable::new();
    table.rows.push(row("a", "t", "c", 0));
    let r = table.serve(get_note_handler("zz".to_string()));
    assert_eq!(error_of(&r), (404, "fail".to_string(), "Note with ID: zz not found".to_string()));
    let r = table.serve(edit_note_handler("zz".to_string(), patch(Some("x"), None, None)));
    assert_eq!(error_of(&r), (404, "error".to_string(), "Note with ID: zz not found".to_string()));
    let r = table.serve(delete_note_handler("zz".to_string()));
    assert_eq!(error_of(&r), (404, "error".to_string(), "Note with ID: zz not found".to_string()));
    assert_eq!(table.rows.len(), 1);
}

#[test]
fn edit_one_field_keeps_others() {
    let mut table = FakeTable::new();
    table.rows.push(row("a", "title", "content", 1));
    let note = shown(&table.serve(edit_note_handler("a".to_string(), patch(None, Some("new"), None))));
    assert_eq!(note.title, "title");
    assert_eq!(note.content, "new");
    assert!(note.is_published);
    assert_eq!(note.created_at, Timestamp { secs: 100, nanos: 5 });
    assert_eq!(note.updated_at, NOW);
}

#[test]
fn edit_with_nothing_set_is_unchanged() {
    let mut table = FakeTable::new();
    table.rows.push(row("a", "title", "content", 0));
    let before = to_note_response(&table.rows[0]);
    let note = shown(&table.serve(edit_note_handler("a".to_string(), patch(None, None, None))));
    assert_eq!(note.id, before.id);
    assert_eq!(note.title, before.title);
    assert_eq!(note.content, before.content);
    assert_eq!(note.is_published, before.is_published);
    assert_eq!(note.created_at, before.created_at);
    assert_eq!(note.updated_at, before.updated_at);
}

#[test]
fn edit_update_matching_nothing_is_not_found() {
    let (phase, _) = edit_note_handler("a".to_string(), patch(Some("x"), None, None));
    let (phase, action) = step(phase, Event::Row(row("a", "t", "c", 0)));
    match action {
        Action::Run(Statement::Update { id, title, content, is_published }) => {
            assert_eq!((id.as_str(), title.as_str(), content.as_str(), is_published), ("a", "x", "c", 0));
        }
        other => panic!("unexpected action {:?}", other),
    }
    let (_, action) = step(phase, Event::Affected(0));
    match action {
        Action::Reply(r) => assert_eq!(
            error_of(&r),
            (404, "error".to_string(), "Note with ID: a not found".to_string())
        ),
        other => panic!("unexpected action {:?}", other),
    }
}

#[test]
fn delete_then_get_is_not_found() {
    let mut table = FakeTable::new();
    table.rows.push(row("a", "t", "c", 0));
    table.rows.push(row("b", "t", "c", 0));
    assert_eq!(table.serve(delete_note_handler("a".to_string())).code, 200);
    assert_eq!(table.serve(get_note_handler("a".to_string())).code, 404);
    assert_eq!(table.serve(get_note_handler("b".to_string())).code, 200);
}

#[test]
fn list_pages_in_id_order() {
    let mut table = FakeTable::new();
    for id in ["e", "a", "d", "b", "c"] {
        table.serve(create_note_with_id(create_body("t", "c", None), id.to_string()));
    }
    let page = |p: usize, l: usize, table: &mut FakeTable| {
        listed(&table.serve(note_list_handler(&FilterOptions { page: Some(p), limit: Some(l) })))
    };
    assert_eq!(page(1, 2, &mut table), vec!["a", "b"]);
    assert_eq!(page(2, 2, &mut table), vec!["c", "d"]);
    assert_eq!(page(3, 2, &mut table), vec!["e"]);
    assert!(page(4, 2, &mut table).is_empty());
    let all = listed(&table.serve(note_list_handler(&FilterOptions { page: None, limit: None })));
    assert_eq!(all, vec!["a", "b", "c", "d", "e"]);
}

#[test]
fn list_database_failure_is_internal() {
    let (phase, action) = note_list_handler(&FilterOptions { page: Some(2), limit: Some(3) });
    match action {
        Action::Run(Statement::SelectPage { limit, offset }) => assert_eq!((limit, offset), (3, 3)),
        other => panic!("unexpected action {:?}", other),
    }
    let (_, action) = step(phase, Event::Failed(DbError::Other("timed out".to_string())));
    match action {
        Action::Reply(r) => assert_eq!(
            error_of(&r),
            (500, "error".to_string(), "Database error: timed out".to_string())
        ),
        other => panic!("unexpected action {:?}", other),
    }
}

#[test]
fn get_database_failure_is_internal() {
    let (phase, _) = get_note_handler("a".to_string());
    let (_, action) = step(phase, Event::Failed(DbError::Other("broken pipe".to_string())));
    match action {
        Action::Reply(r) => assert_eq!(error_of(&r), (500, "error".to_string(), "broken pipe".to_string())),
        other => panic!("unexpected action {:?}", other),
    }
}

#[test]
fn refetch_missing_row_is_internal() {
    let (phase, _) = create_note_with_id(create_body("t", "c", None), "a".to_string());
    let (phase, _) = step(phase, Event::Affected(1));
    let (_, action) = step(phase, Event::Failed(DbError::RowNotFound));
    match action {
        Action::Reply(r) => assert_eq!(error_of(&r), (500, "error".to_string(), "RowNotFound".to_string())),
        other => panic!("unexpected action {:?}", other),
    }
}

#[test]
fn nonzero_flag_reads_published() {
    let r = to_note_response(&row("a", "t", "c", 5));
    assert!(r.is_published);
    assert_eq!(r.created_at, Timestamp { secs: 100, nanos: 5 });
    assert_eq!(r.updated_at, Timestamp { secs: 200, nanos: 7 });
}

#[test]
fn rows_without_timestamps_are_not_expected() {
    let mut incomplete = row("a", "t", "c", 0);
    incomplete.updated_at = None;
    let (phase, _) = get_note_handler("a".to_string());
    assert!(!expects_event(&phase, &Event::Row(incomplete.clone())));
    let (phase, _) = edit_note_handler("a".to_string(), patch(None, None, None));
    assert!(expects_event(&phase, &Event::Row(incomplete.clone())));
    let (phase, _) = note_list_handler(&FilterOptions { page: None, limit: None });
    assert!(!expects_event(&phase, &Event::Rows(vec![row("b", "t", "c", 0), incomplete])));
    assert!(!expects_event(&phase, &Event::Affected(1)));
}
