use mongodb::bson::Document;
use mongonaut::controller::{Command, Fetch, Key};
use mongonaut::error::AppError;
use mongonaut::history::ConnectionHistory;
use mongonaut::models::{CollectionInfo, DatabaseInfo, ServerInfo};
use mongonaut::state::{AppState, Mode, Screen};

fn db(name: &str) -> DatabaseInfo {
    DatabaseInfo { name: name.to_string(), size_on_disk: 0, collection_count: 0, empty: false }
}

fn coll(name: &str) -> CollectionInfo {
    CollectionInfo {
        name: name.to_string(),
        document_count: 0,
        size: 0,
        indexes: Vec::new(),
        capped: false,
    }
}

fn doc(i: i32) -> Document {
    let mut d = Document::new();
    d.insert("_id", i);
    d.insert("name", format!("n{}", i));
    d
}

fn type_text(s: &mut AppState, text: &str) {
    for c in text.chars() {
        assert!(s.handle_key(Key::Char(c)).is_none());
    }
}

/// A session showing `n` documents of shop.orders.
fn in_documents(n: i32) -> AppState {
    let mut s = AppState::new();
    s.current_database = Some("shop".to_string());
    s.set_screen(Screen::CollectionList);
    s.set_collections(vec![coll("orders")]);
    let cmd = s.handle_key(Key::Enter);
    let (q, p) = match cmd {
        Some(Command::FindDocuments { query, purpose }) => (query, purpose),
        _ => panic!("expected a fetch"),
    };
    assert_eq!(p, Fetch::Open);
    assert!(s.finish_documents(q, p, Ok((0..n).map(doc).collect())).is_none());
    s
}

#[test]
fn new_session_starts_disconnected_on_connection_screen() {
    let s = AppState::new();
    assert_eq!(s.current_screen, Screen::Connection);
    assert_eq!(s.mode, Mode::EditingUri);
    assert!(!s.is_connected());
    assert!(!s.loading);
    assert_eq!(s.page_size, 20);
    let d = AppState::default();
    assert_eq!(d.current_screen, Screen::Connection);
}

#[test]
fn editing_the_connection_string() {
    let mut s = AppState::new();
    type_text(&mut s, "mongodb://x");
    assert_eq!(s.connection_input, "mongodb://x");
    s.handle_key(Key::Backspace);
    assert_eq!(s.connection_input, "mongodb://");
    s.error = Some("old".to_string());
    s.handle_key(Key::Esc);
    assert_eq!(s.connection_input, "");
    assert!(s.error.is_none());
    assert!(matches!(s.handle_key(Key::Ctrl('v')), Some(Command::ReadClipboard)));
    s.paste_text("mongodb://pasted:1");
    assert_eq!(s.connection_input, "mongodb://pasted:1");
}

#[test]
fn failed_connect_keeps_connection_screen() {
    let mut s = AppState::new();
    type_text(&mut s, "mongodb://bad-host:1");
    let cmd = s.handle_key(Key::Enter);
    let uri = match cmd {
        Some(Command::Connect { uri }) => uri,
        _ => panic!("expected connect"),
    };
    assert_eq!(uri, "mongodb://bad-host:1");
    assert!(s.loading);
    let next = s.finish_connect(uri, Err(AppError::Connection("server selection timeout".to_string())));
    assert!(next.is_none());
    assert_eq!(s.current_screen, Screen::Connection);
    assert!(!s.loading);
    assert_eq!(
        s.error.as_deref(),
        Some("Connection failed: Connection error: server selection timeout")
    );
    assert!(s.connection_history.uris.is_empty());
}

#[test]
fn successful_connect_lists_databases() {
    let mut s = AppState::new();
    type_text(&mut s, "mongodb://h:27017");
    let uri = match s.handle_key(Key::Enter) {
        Some(Command::Connect { uri }) => uri,
        _ => panic!("expected connect"),
    };
    let info = ServerInfo { version: "7.0".to_string(), host: "h".to_string(), port: 27017 };
    assert!(matches!(s.finish_connect(uri, Ok(info)), Some(Command::SaveHistory)));
    assert!(s.is_connected());
    assert_eq!(s.connection_history.uris, vec!["mongodb://h:27017".to_string()]);
    assert!(matches!(s.finish_save_history(), Some(Command::ListDatabases { refresh: false })));
    assert!(s.loading);
    s.finish_databases(false, Ok(vec![db("admin"), db("shop")]));
    assert_eq!(s.current_screen, Screen::DatabaseList);
    assert_eq!(s.mode, Mode::Browsing);
    assert_eq!(s.databases.len(), 2);
    assert_eq!(s.selected_db_index, 0);
    assert!(!s.loading);
}

#[test]
fn open_database_with_three_collections() {
    let mut s = AppState::new();
    s.set_screen(Screen::DatabaseList);
    s.set_databases(vec![db("admin"), db("shop")]);
    s.handle_key(Key::Down);
    let (name, refresh) = match s.handle_key(Key::Enter) {
        Some(Command::ListCollections { database, refresh }) => (database, refresh),
        _ => panic!("expected collections request"),
    };
    assert_eq!(name, "shop");
    assert!(!refresh);
    s.finish_collections(name, refresh, Ok(vec![coll("a"), coll("b"), coll("c")]));
    assert_eq!(s.current_screen, Screen::CollectionList);
    assert_eq!(s.selected_coll_index, 0);
    assert_eq!(s.collections.len(), 3);
    assert_eq!(s.current_database.as_deref(), Some("shop"));
}

#[test]
fn failed_fetch_changes_only_error_and_loading() {
    let mut s = in_documents(3);
    s.handle_key(Key::Down);
    let before_docs = s.documents.clone();
    let cmd = s.handle_key(Key::Char('r'));
    let (q, p) = match cmd {
        Some(Command::FindDocuments { query, purpose }) => (query, purpose),
        _ => panic!("expected a fetch"),
    };
    assert!(s.loading);
    s.finish_documents(q, p, Err(AppError::Query("boom".to_string())));
    assert_eq!(s.documents, before_docs);
    assert_eq!(s.selected_doc_index, 1);
    assert!(s.filter.is_none());
    assert!(!s.loading);
    assert_eq!(s.error.as_deref(), Some("Failed to refresh: Query error: boom"));
    assert_eq!(s.current_screen, Screen::DocumentView);

    let mut t = AppState::new();
    t.set_screen(Screen::DatabaseList);
    t.set_databases(vec![db("x")]);
    assert!(matches!(t.handle_key(Key::Char('r')), Some(Command::ListDatabases { refresh: true })));
    t.finish_databases(true, Err(AppError::Mongo("down".to_string())));
    assert_eq!(t.databases.len(), 1);
    assert_eq!(t.error.as_deref(), Some("Failed to refresh databases: MongoDB error: down"));
}

#[test]
fn refresh_twice_gives_the_same_documents() {
    let mut s = in_documents(4);
    let mut seen = Vec::new();
    for _ in 0..2 {
        let (q, p) = match s.handle_key(Key::Char('r')) {
            Some(Command::FindDocuments { query, purpose }) => (query, purpose),
            _ => panic!("expected a fetch"),
        };
        assert_eq!(p, Fetch::Refresh);
        assert_eq!((q.database.as_str(), q.collection.as_str(), q.skip, q.limit), ("shop", "orders", 0, 20));
        seen.push((q.database.clone(), q.collection.clone(), q.filter.clone()));
        s.finish_documents(q, p, Ok((0..4).map(doc).collect()));
        assert_eq!(s.documents, (0..4).map(doc).collect::<Vec<_>>());
    }
    assert_eq!(seen[0], seen[1]);
}

#[test]
fn next_document_wraps_to_first() {
    let mut s = in_documents(5);
    for _ in 0..4 {
        s.handle_key(Key::Down);
    }
    assert_eq!(s.selected_doc_index, 4);
    s.handle_key(Key::Down);
    assert_eq!(s.selected_doc_index, 0);
    s.handle_key(Key::Up);
    assert_eq!(s.selected_doc_index, 4);
}

#[test]
fn shrinking_refresh_reclamps_cursor() {
    let mut s = in_documents(5);
    s.handle_key(Key::Up);
    assert_eq!(s.selected_doc_index, 4);
    let (q, p) = match s.handle_key(Key::Char('r')) {
        Some(Command::FindDocuments { query, purpose }) => (query, purpose),
        _ => panic!("expected a fetch"),
    };
    s.finish_documents(q, p, Ok((0..2).map(doc).collect()));
    assert_eq!(s.selected_doc_index, 1);
    s.reload_documents(Vec::new());
    assert_eq!(s.selected_doc_index, 0);
}

#[test]
fn malformed_structured_query_stays_in_query_mode() {
    let mut s = in_documents(2);
    s.handle_key(Key::Char('/'));
    assert_eq!(s.mode, Mode::StructuredQuery);
    type_text(&mut s, "{\"status\": \"active\"");
    assert!(s.handle_key(Key::Enter).is_none());
    assert_eq!(s.mode, Mode::StructuredQuery);
    assert!(s.error.is_some());
    assert!(s.filter.is_none());
    assert_eq!(s.query_input, "{\"status\": \"active\"");
}

#[test]
fn structured_query_sets_filter_and_fetches() {
    let mut s = in_documents(2);
    s.handle_key(Key::Char('/'));
    type_text(&mut s, "{\"status\": \"active\"}");
    let (q, p) = match s.handle_key(Key::Enter) {
        Some(Command::FindDocuments { query, purpose }) => (query, purpose),
        _ => panic!("expected a fetch"),
    };
    assert_eq!(p, Fetch::Query);
    assert_eq!(s.mode, Mode::Navigation);
    let mut expected = Document::new();
    expected.insert("status", "active");
    assert_eq!(q.filter.as_ref(), Some(&expected));
    assert_eq!(s.filter.as_ref(), Some(&expected));
    assert_eq!(q.skip, 0);
    s.finish_documents(q, p, Ok(vec![doc(9)]));
    assert_eq!(s.documents, vec![doc(9)]);
    // refresh keeps the filter
    match s.handle_key(Key::Char('r')) {
        Some(Command::FindDocuments { query, .. }) => assert_eq!(query.filter, Some(expected)),
        _ => panic!("expected a fetch"),
    }
}

#[test]
fn escape_in_query_mode_discards_buffer() {
    let mut s = in_documents(1);
    s.handle_key(Key::Char('/'));
    type_text(&mut s, "{\"a\":1}");
    s.handle_key(Key::Esc);
    assert_eq!(s.mode, Mode::Navigation);
    assert_eq!(s.query_input, "");
    assert!(s.filter.is_none());
}

#[test]
fn live_filter_samples_then_searches() {
    let mut s = in_documents(3);
    s.handle_key(Key::Char('f'));
    assert_eq!(s.mode, Mode::LiveFilter);
    let (q, p) = match s.handle_key(Key::Char('a')) {
        Some(Command::FindDocuments { query, purpose }) => (query, purpose),
        _ => panic!("expected a sample"),
    };
    assert_eq!(p, Fetch::Sample);
    assert_eq!(q.limit, 1);
    assert!(q.filter.is_none());
    let mut sample = Document::new();
    sample.insert("_id", "1");
    sample.insert("name", "Alice");
    let (search_query, search_purpose) = match s.finish_documents(q, p, Ok(vec![sample])) {
        Some(Command::FindDocuments { query, purpose }) => (query, purpose),
        _ => panic!("expected a search"),
    };
    assert_eq!(search_purpose, Fetch::Search);
    assert_eq!(search_query.limit, 20);
    let f = search_query.filter.clone().unwrap();
    assert_eq!(f.get_array("$or").unwrap().len(), 1);
    s.finish_documents(search_query, search_purpose, Ok(vec![doc(1)]));
    assert_eq!(s.documents, vec![doc(1)]);
    assert!(s.filter.is_none());
    s.handle_key(Key::Enter);
    assert_eq!(s.mode, Mode::Navigation);
    assert_eq!(s.filter_input, "a");
}

#[test]
fn live_filter_with_empty_collection_empties_documents() {
    let mut s = in_documents(3);
    s.handle_key(Key::Char('f'));
    let (q, p) = match s.handle_key(Key::Char('z')) {
        Some(Command::FindDocuments { query, purpose }) => (query, purpose),
        _ => panic!("expected a sample"),
    };
    assert!(s.finish_documents(q, p, Ok(Vec::new())).is_none());
    assert!(s.documents.is_empty());
    assert!(s.error.is_none());
}

#[test]
fn erasing_live_filter_text_reloads_unfiltered() {
    let mut s = in_documents(3);
    s.handle_key(Key::Char('f'));
    s.handle_key(Key::Char('a'));
    match s.handle_key(Key::Backspace) {
        Some(Command::FindDocuments { query, purpose }) => {
            assert_eq!(purpose, Fetch::Reload);
            assert!(query.filter.is_none());
            assert_eq!(query.limit, 20);
        }
        _ => panic!("expected a reload"),
    }
    assert_eq!(s.filter_input, "");
    match s.handle_key(Key::Esc) {
        Some(Command::FindDocuments { purpose, .. }) => assert_eq!(purpose, Fetch::Reload),
        _ => panic!("expected a reload"),
    }
    assert_eq!(s.mode, Mode::Navigation);
}

#[test]
fn sample_without_fields_reloads_unfiltered() {
    let mut s = in_documents(3);
    s.handle_key(Key::Char('f'));
    let (q, p) = match s.handle_key(Key::Char('a')) {
        Some(Command::FindDocuments { query, purpose }) => (query, purpose),
        _ => panic!("expected a sample"),
    };
    let mut only_id = Document::new();
    only_id.insert("_id", 1);
    match s.finish_documents(q, p, Ok(vec![only_id])) {
        Some(Command::FindDocuments { query, purpose }) => {
            assert_eq!(purpose, Fetch::Reload);
            assert!(query.filter.is_none());
        }
        _ => panic!("expected a reload"),
    }
}

#[test]
fn navigation_keys_and_back() {
    let mut s = in_documents(2);
    s.handle_key(Key::PageDown);
    s.handle_key(Key::PageDown);
    s.handle_key(Key::PageUp);
    assert_eq!(s.doc_scroll_offset, 1);
    s.handle_key(Key::PageUp);
    s.handle_key(Key::PageUp);
    assert_eq!(s.doc_scroll_offset, 0);
    s.handle_key(Key::Backspace);
    assert_eq!(s.current_screen, Screen::CollectionList);
    s.handle_key(Key::Backspace);
    assert_eq!(s.current_screen, Screen::DatabaseList);
    s.handle_key(Key::Char('q'));
    assert!(s.should_quit);
}

#[test]
fn history_browsing_copies_entry() {
    let mut s = AppState::new();
    let mut h = ConnectionHistory::new();
    h.add_uri("mongodb://one".to_string());
    h.add_uri("mongodb://two".to_string());
    s.set_connection_history(h);
    s.handle_key(Key::Tab);
    assert_eq!(s.mode, Mode::BrowsingHistory);
    s.handle_key(Key::Down);
    assert_eq!(s.selected_history_index, 1);
    s.handle_key(Key::Down);
    assert_eq!(s.selected_history_index, 0);
    s.handle_key(Key::Up);
    assert_eq!(s.get_selected_history_uri().map(|u| u.as_str()), Some("mongodb://one"));
    s.handle_key(Key::Enter);
    assert_eq!(s.mode, Mode::EditingUri);
    assert_eq!(s.connection_input, "mongodb://one");
    s.handle_key(Key::Ctrl('c'));
    assert!(s.should_quit);
}

#[test]
fn selection_getters() {
    let mut s = AppState::new();
    assert!(s.get_selected_database().is_none());
    s.set_databases(vec![db("a"), db("b")]);
    s.select_prev_db();
    assert_eq!(s.get_selected_database().unwrap().name, "b");
    s.select_next_db();
    assert_eq!(s.get_selected_database().unwrap().name, "a");
    s.set_collections(vec![coll("c1")]);
    s.select_next_coll();
    s.select_prev_coll();
    assert_eq!(s.get_selected_collection().unwrap().name, "c1");
    s.set_documents(vec![doc(3)]);
    assert_eq!(s.get_selected_document(), Some(&doc(3)));
}

#[test]
fn error_messages() {
    assert_eq!(AppError::InvalidInput("x".to_string()).message(), "Invalid input: x");
    assert_eq!(AppError::Io("disk".to_string()).message(), "IO error: disk");
    assert_eq!(AppError::Serialization("bad".to_string()).message(), "Serialization error: bad");
}

#[test]
fn opening_collection_requires_open_database() {
    let mut s = AppState::new();
    s.set_screen(Screen::CollectionList);
    s.set_collections(vec![coll("c")]);
    assert!(s.handle_key(Key::Enter).is_none());
    assert!(!s.loading);
}

#[test]
fn listed_database_and_collection() {
    let d = DatabaseInfo::listed("shop".to_string(), 4096, false);
    assert_eq!((d.name.as_str(), d.size_on_disk, d.collection_count, d.empty), ("shop", 4096, 0, false));
    let c = CollectionInfo::listed("orders".to_string(), Some(12), Some(vec!["_id_".to_string()]));
    assert_eq!((c.name.as_str(), c.document_count, c.indexes.len(), c.size, c.capped), ("orders", 12, 1, 0, false));
    let unknown = CollectionInfo::listed("logs".to_string(), None, None);
    assert_eq!(unknown.document_count, 0);
    assert!(unknown.indexes.is_empty());
}

#[test]
fn empty_live_filter_text_is_an_unfiltered_refresh_keeping_stored_filter() {
    let mut s = in_documents(3);
    let mut stored = Document::new();
    stored.insert("status", "active");
    s.filter = Some(stored.clone());
    s.handle_key(Key::Char('f'));
    s.handle_key(Key::Char('x'));
    let (q, p) = match s.handle_key(Key::Backspace) {
        Some(Command::FindDocuments { query, purpose }) => (query, purpose),
        _ => panic!("expected a reload"),
    };
    assert_eq!(p, Fetch::Reload);
    assert_eq!((q.database.as_str(), q.collection.as_str()), ("shop", "orders"));
    assert!(q.filter.is_none());
    assert_eq!((q.skip, q.limit), (0, 20));
    assert!(s.finish_documents(q, p, Ok(vec![doc(7), doc(8)])).is_none());
    assert_eq!(s.documents, vec![doc(7), doc(8)]);
    assert_eq!(s.filter, Some(stored));
}

#[test]
fn opening_a_collection_keeps_the_stored_filter() {
    let mut s = AppState::new();
    let mut stored = Document::new();
    stored.insert("a", "b");
    s.filter = Some(stored.clone());
    s.current_database = Some("shop".to_string());
    s.set_screen(Screen::CollectionList);
    s.set_collections(vec![coll("orders")]);
    let (q, p) = match s.handle_key(Key::Enter) {
        Some(Command::FindDocuments { query, purpose }) => (query, purpose),
        _ => panic!("expected a fetch"),
    };
    assert!(q.filter.is_none());
    s.finish_documents(q, p, Ok(vec![doc(1)]));
    assert_eq!(s.current_screen, Screen::DocumentView);
    assert_eq!(s.filter, Some(stored));
}

#[test]
fn default_session_matches_new() {
    let d = AppState::default();
    assert_eq!(d.mode, Mode::EditingUri);
    assert!(d.connection_input.is_empty());
    assert_eq!(d.page_size, 20);
    assert!(d.connection_history.uris.is_empty());
}
