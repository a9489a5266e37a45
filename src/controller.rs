use crate::error::{with_context, AppError};
use crate::filter::{
    any_field_contains, entries, keys_of, live_filter, parse_filter, document_read,
    searchable_fields,
};
use crate::history::with_recent;
use crate::models::{CollectionInfo, DatabaseInfo, QueryParams, ServerInfo};
use crate::state::{next_index, prev_index, AppState, ConnectionState, Mode, Screen};
use crate::text::{chars_of, erased, pop_char, push_char};
use mongodb::bson::Document;
use vstd::prelude::*;

verus! {

/// One key press, as the session reads it.
#[derive(Debug, Clone, Copy, PartialEq, Eq, Structural)]
pub enum Key {
    Char(char),
    /// A character typed with the control key held.
    Ctrl(char),
    Up,
    Down,
    PageUp,
    PageDown,
    Enter,
    Esc,
    Backspace,
    Tab,
    Other,
}

/// What a key press asks of the session.
#[derive(Debug, Clone, Copy, PartialEq, Eq, Structural)]
pub enum Action {
    Nothing,
    Quit,
    TypeUri(char),
    EraseUri,
    ClearUri,
    PasteUri,
    ToggleHistory,
    HistoryNext,
    HistoryPrev,
    UseHistoryEntry,
    Connect,
    NextDatabase,
    PrevDatabase,
    OpenDatabase,
    RefreshDatabases,
    NextCollection,
    PrevCollection,
    OpenCollection,
    RefreshCollections,
    BackToDatabases,
    NextDocument,
    PrevDocument,
    ScrollDown,
    ScrollUp,
    BackToCollections,
    StartLiveFilter,
    StartQuery,
    ClearFilter,
    RefreshDocuments,
    TypeFilter(char),
    EraseFilter,
    CancelLiveFilter,
    CommitLiveFilter,
    TypeQuery(char),
    EraseQuery,
    CancelQuery,
    ApplyQuery,
}

/// Why documents are fetched, which decides what is done with them.
#[derive(Debug, Clone, Copy, PartialEq, Eq, Structural)]
pub enum Fetch {
    /// The first page of a collection being opened.
    Open,
    /// The current page again, under the active filter.
    Refresh,
    /// The current page again, with no filter.
    Reload,
    /// The first page under a filter just typed.
    Query,
    /// One document, whose fields a live search looks in.
    Sample,
    /// The first page of a live search.
    Search,
}

/// Work the session hands out and waits for; each has its `finish_` method
/// that takes the outcome back.
#[derive(Debug)]
pub enum Command {
    /// Read the clipboard's text and hand it to `paste_text`.
    ReadClipboard,
    Connect { uri: String },
    /// Store the connection history, then call `finish_save_history`.
    SaveHistory,
    ListDatabases { refresh: bool },
    ListCollections { database: String, refresh: bool },
    FindDocuments { query: QueryParams, purpose: Fetch },
}

/// The character a key types, with or without the control key.
pub open spec fn letter(key: Key) -> Option<char> {
    match key {
        Key::Char(c) | Key::Ctrl(c) => Some(c),
        _ => None,
    }
}

/// What each key does on each screen, in each mode.
pub open spec fn action_of(screen: Screen, mode: Mode, key: Key) -> Action {
    match screen {
        Screen::Connection => if mode == Mode::BrowsingHistory {
            match key {
                Key::Ctrl('c') | Key::Ctrl('q') => Action::Quit,
                Key::Up | Key::Char('k') | Key::Ctrl('k') => Action::HistoryPrev,
                Key::Down | Key::Char('j') | Key::Ctrl('j') => Action::HistoryNext,
                Key::Enter => Action::UseHistoryEntry,
                Key::Tab => Action::ToggleHistory,
                _ => Action::Nothing,
            }
        } else {
            match key {
                Key::Ctrl('c') | Key::Ctrl('q') => Action::Quit,
                Key::Tab => Action::ToggleHistory,
                Key::Ctrl('v') => Action::PasteUri,
                Key::Char(c) | Key::Ctrl(c) => Action::TypeUri(c),
                Key::Backspace => Action::EraseUri,
                Key::Esc => Action::ClearUri,
                Key::Enter => Action::Connect,
                _ => Action::Nothing,
            }
        },
        Screen::DatabaseList => match key {
            Key::Char('q') | Key::Ctrl('q') => Action::Quit,
            Key::Down | Key::Char('j') | Key::Ctrl('j') => Action::NextDatabase,
            Key::Up | Key::Char('k') | Key::Ctrl('k') => Action::PrevDatabase,
            Key::Enter => Action::OpenDatabase,
            Key::Char('r') | Key::Ctrl('r') => Action::RefreshDatabases,
            _ => Action::Nothing,
        },
        Screen::CollectionList => match key {
            Key::Char('q') | Key::Ctrl('q') => Action::Quit,
            Key::Down | Key::Char('j') | Key::Ctrl('j') => Action::NextCollection,
            Key::Up | Key::Char('k') | Key::Ctrl('k') => Action::PrevCollection,
            Key::Enter => Action::OpenCollection,
            Key::Backspace => Action::BackToDatabases,
            Key::Char('r') | Key::Ctrl('r') => Action::RefreshCollections,
            _ => Action::Nothing,
        },
        Screen::DocumentView => if mode == Mode::StructuredQuery {
            match key {
                Key::Char(c) | Key::Ctrl(c) => Action::TypeQuery(c),
                Key::Backspace => Action::EraseQuery,
                Key::Esc => Action::CancelQuery,
                Key::Enter => Action::ApplyQuery,
                _ => Action::Nothing,
            }
        } else if mode == Mode::LiveFilter {
            match key {
                Key::Char(c) | Key::Ctrl(c) => Action::TypeFilter(c),
                Key::Backspace => Action::EraseFilter,
                Key::Esc => Action::CancelLiveFilter,
                Key::Enter => Action::CommitLiveFilter,
                _ => Action::Nothing,
            }
        } else {
            match key {
                Key::Ctrl('q') => Action::Quit,
                Key::Char('f') | Key::Ctrl('f') => Action::StartLiveFilter,
                Key::Char('/') | Key::Ctrl('/') => Action::StartQuery,
                Key::Down | Key::Char('j') | Key::Ctrl('j') => Action::NextDocument,
                Key::Up | Key::Char('k') | Key::Ctrl('k') => Action::PrevDocument,
                Key::PageDown => Action::ScrollDown,
                Key::PageUp => Action::ScrollUp,
                Key::Backspace => Action::BackToCollections,
                Key::Esc => Action::ClearFilter,
                Key::Char('r') | Key::Ctrl('r') => Action::RefreshDocuments,
                _ => Action::Nothing,
            }
        },
    }
}

/// The action a key press asks for in the state the session is in.
pub fn action_for(screen: Screen, mode: Mode, key: Key) -> (r: Action)
    ensures
        r == action_of(screen, mode, key),
{
    match screen {
        Screen::Connection => if mode == Mode::BrowsingHistory {
            match key {
                Key::Ctrl('c') | Key::Ctrl('q') => Action::Quit,
                Key::Up | Key::Char('k') | Key::Ctrl('k') => Action::HistoryPrev,
                Key::Down | Key::Char('j') | Key::Ctrl('j') => Action::HistoryNext,
                Key::Enter => Action::UseHistoryEntry,
                Key::Tab => Action::ToggleHistory,
                _ => Action::Nothing,
            }
        } else {
            match key {
                Key::Ctrl('c') | Key::Ctrl('q') => Action::Quit,
                Key::Tab => Action::ToggleHistory,
                Key::Ctrl('v') => Action::PasteUri,
                Key::Char(c) | Key::Ctrl(c) => Action::TypeUri(c),
                Key::Backspace => Action::EraseUri,
                Key::Esc => Action::ClearUri,
                Key::Enter => Action::Connect,
                _ => Action::Nothing,
            }
        },
        Screen::DatabaseList => match key {
            Key::Char('q') | Key::Ctrl('q') => Action::Quit,
            Key::Down | Key::Char('j') | Key::Ctrl('j') => Action::NextDatabase,
            Key::Up | Key::Char('k') | Key::Ctrl('k') => Action::PrevDatabase,
            Key::Enter => Action::OpenDatabase,
            Key::Char('r') | Key::Ctrl('r') => Action::RefreshDatabases,
            _ => Action::Nothing,
        },
        Screen::CollectionList => match key {
            Key::Char('q') | Key::Ctrl('q') => Action::Quit,
            Key::Down | Key::Char('j') | Key::Ctrl('j') => Action::NextCollection,
            Key::Up | Key::Char('k') | Key::Ctrl('k') => Action::PrevCollection,
            Key::Enter => Action::OpenCollection,
            Key::Backspace => Action::BackToDatabases,
            Key::Char('r') | Key::Ctrl('r') => Action::RefreshCollections,
            _ => Action::Nothing,
        },
        Screen::DocumentView => if mode == Mode::StructuredQuery {
            match key {
                Key::Char(c) | Key::Ctrl(c) => Action::TypeQuery(c),
                Key::Backspace => Action::EraseQuery,
                Key::Esc => Action::CancelQuery,
                Key::Enter => Action::ApplyQuery,
                _ => Action::Nothing,
            }
        } else if mode == Mode::LiveFilter {
            match key {
                Key::Char(c) | Key::Ctrl(c) => Action::TypeFilter(c),
                Key::Backspace => Action::EraseFilter,
                Key::Esc => Action::CancelLiveFilter,
                Key::Enter => Action::CommitLiveFilter,
                _ => Action::Nothing,
            }
        } else {
            match key {
                Key::Ctrl('q') => Action::Quit,
                Key::Char('f') | Key::Ctrl('f') => Action::StartLiveFilter,
                Key::Char('/') | Key::Ctrl('/') => Action::StartQuery,
                Key::Down | Key::Char('j') | Key::Ctrl('j') => Action::NextDocument,
                Key::Up | Key::Char('k') | Key::Ctrl('k') => Action::PrevDocument,
                Key::PageDown => Action::ScrollDown,
                Key::PageUp => Action::ScrollUp,
                Key::Backspace => Action::BackToCollections,
                Key::Esc => Action::ClearFilter,
                Key::Char('r') | Key::Ctrl('r') => Action::RefreshDocuments,
                _ => Action::Nothing,
            }
        },
    }
}

/// One page of `collection` in `database`, from its start.
pub open spec fn page_query(
    database: String,
    collection: String,
    filter: Option<Document>,
    limit: usize,
) -> QueryParams {
    QueryParams { database, collection, filter, skip: 0, limit: limit as i64, sort: None }
}

/// The request for documents of the open collection; none where no
/// collection is open.
pub open spec fn documents_request(
    s: AppState,
    filter: Option<Document>,
    limit: usize,
    purpose: Fetch,
) -> Option<Command> {
    match (s.current_database, s.current_collection) {
        (Some(db), Some(coll)) => Some(
            Command::FindDocuments { query: page_query(db, coll, filter, limit), purpose },
        ),
        _ => None,
    }
}

/// `t` and `r` are what asking for documents from `u` gives: the request,
/// under way, or no change where no collection is open.
pub open spec fn fetched(
    u: AppState,
    t: AppState,
    r: Option<Command>,
    filter: Option<Document>,
    limit: usize,
    purpose: Fetch,
) -> bool {
    &&& r == documents_request(u, filter, limit, purpose)
    &&& t == if r is Some {
        u.fetching()
    } else {
        u
    }
}

/// A live search from `u`: with no text, the page without filter; else the
/// first step, a request for one sample document.
pub open spec fn live_step(u: AppState, t: AppState, r: Option<Command>) -> bool {
    if u.filter_input@.len() == 0 {
        fetched(u, t, r, None, u.page_size, Fetch::Reload)
    } else {
        fetched(u, t, r, None, 1, Fetch::Sample)
    }
}

/// Whether `a` can be asked for on `screen`: those that change the mode only
/// on the screen that mode belongs to.
pub open spec fn action_fits(screen: Screen, a: Action) -> bool {
    match a {
        Action::ToggleHistory | Action::UseHistoryEntry => screen == Screen::Connection,
        Action::StartLiveFilter | Action::StartQuery | Action::CancelLiveFilter
        | Action::CommitLiveFilter | Action::CancelQuery | Action::ApplyQuery => screen
            == Screen::DocumentView,
        _ => true,
    }
}

/// The other mode of the connection screen.
pub open spec fn toggled(mode: Mode) -> Mode {
    if mode == Mode::BrowsingHistory {
        Mode::EditingUri
    } else {
        Mode::BrowsingHistory
    }
}

/// `t` and `r` are what action `a` makes of state `s`: the new state and the
/// work handed out.
pub open spec fn applied(s: AppState, t: AppState, a: Action, r: Option<Command>) -> bool {
    match a {
        Action::Nothing => t == s && r is None,
        Action::Quit => t == (AppState { should_quit: true, ..s }) && r is None,
        Action::TypeUri(c) => {
            &&& t == (AppState { connection_input: t.connection_input, ..s })
            &&& t.connection_input@ == s.connection_input@.push(c)
            &&& r is None
        },
        Action::EraseUri => {
            &&& t == (AppState { connection_input: t.connection_input, ..s })
            &&& t.connection_input@ == erased(s.connection_input@)
            &&& r is None
        },
        Action::ClearUri => {
            &&& t == (AppState { connection_input: t.connection_input, error: None, ..s })
            &&& t.connection_input@.len() == 0
            &&& r is None
        },
        Action::PasteUri => t == s && r == Some(Command::ReadClipboard),
        Action::ToggleHistory => t == (AppState { mode: toggled(s.mode), ..s }) && r is None,
        Action::HistoryNext => {
            &&& t == (AppState {
                selected_history_index: next_index(
                    s.selected_history_index,
                    s.connection_history@.len(),
                ),
                ..s
            })
            &&& r is None
        },
        Action::HistoryPrev => {
            &&& t == (AppState {
                selected_history_index: prev_index(
                    s.selected_history_index,
                    s.connection_history@.len(),
                ),
                ..s
            })
            &&& r is None
        },
        Action::UseHistoryEntry => {
            &&& t == if s.selected_history_index < s.connection_history@.len() {
                AppState {
                    connection_input: s.connection_history.uris@[s.selected_history_index as int],
                    mode: Mode::EditingUri,
                    ..s
                }
            } else {
                s
            }
            &&& r is None
        },
        Action::Connect => t == s.fetching() && r == Some(
            Command::Connect { uri: s.connection_input },
        ),
        Action::NextDatabase => t == (AppState {
            selected_db_index: next_index(s.selected_db_index, s.databases@.len()),
            ..s
        }) && r is None,
        Action::PrevDatabase => t == (AppState {
            selected_db_index: prev_index(s.selected_db_index, s.databases@.len()),
            ..s
        }) && r is None,
        Action::OpenDatabase => if s.selected_db_index < s.databases@.len() {
            t == s.fetching() && r == Some(
                Command::ListCollections {
                    database: s.databases@[s.selected_db_index as int].name,
                    refresh: false,
                },
            )
        } else {
            t == s && r is None
        },
        Action::RefreshDatabases => t == s.fetching() && r == Some(
            Command::ListDatabases { refresh: true },
        ),
        Action::NextCollection => t == (AppState {
            selected_coll_index: next_index(s.selected_coll_index, s.collections@.len()),
            ..s
        }) && r is None,
        Action::PrevCollection => t == (AppState {
            selected_coll_index: prev_index(s.selected_coll_index, s.collections@.len()),
            ..s
        }) && r is None,
        Action::OpenCollection => match s.current_database {
            Some(db) => if s.selected_coll_index < s.collections@.len() {
                t == s.fetching() && r == Some(
                    Command::FindDocuments {
                        query: page_query(
                            db,
                            s.collections@[s.selected_coll_index as int].name,
                            None,
                            s.page_size,
                        ),
                        purpose: Fetch::Open,
                    },
                )
            } else {
                t == s && r is None
            },
            None => t == s && r is None,
        },
        Action::RefreshCollections => match s.current_database {
            Some(db) => t == s.fetching() && r == Some(
                Command::ListCollections { database: db, refresh: true },
            ),
            None => t == s && r is None,
        },
        Action::BackToDatabases => t == s.on_screen(Screen::DatabaseList) && r is None,
        Action::NextDocument => t == (AppState {
            selected_doc_index: next_index(s.selected_doc_index, s.documents@.len()),
            ..s
        }) && r is None,
        Action::PrevDocument => t == (AppState {
            selected_doc_index: prev_index(s.selected_doc_index, s.documents@.len()),
            ..s
        }) && r is None,
        Action::ScrollDown => t == (AppState {
            doc_scroll_offset: if s.doc_scroll_offset < usize::MAX {
                (s.doc_scroll_offset + 1) as usize
            } else {
                s.doc_scroll_offset
            },
            ..s
        }) && r is None,
        Action::ScrollUp => t == (AppState {
            doc_scroll_offset: if s.doc_scroll_offset > 0 {
                (s.doc_scroll_offset - 1) as usize
            } else {
                0
            },
            ..s
        }) && r is None,
        Action::BackToCollections => t == s.on_screen(Screen::CollectionList) && r is None,
        Action::StartLiveFilter => t == (AppState { mode: Mode::LiveFilter, ..s }) && r is None,
        Action::StartQuery => t == (AppState { mode: Mode::StructuredQuery, ..s }) && r is None,
        Action::ClearFilter => fetched(
            AppState { filter: None, ..s },
            t,
            r,
            None,
            s.page_size,
            Fetch::Reload,
        ),
        Action::RefreshDocuments => fetched(s, t, r, s.filter, s.page_size, Fetch::Refresh),
        Action::TypeFilter(c) => {
            &&& t.filter_input@ == s.filter_input@.push(c)
            &&& live_step(AppState { filter_input: t.filter_input, ..s }, t, r)
        },
        Action::EraseFilter => {
            &&& t.filter_input@ == erased(s.filter_input@)
            &&& live_step(AppState { filter_input: t.filter_input, ..s }, t, r)
        },
        Action::CancelLiveFilter => {
            &&& t.filter_input@.len() == 0
            &&& fetched(
                AppState { filter_input: t.filter_input, mode: Mode::Navigation, ..s },
                t,
                r,
                None,
                s.page_size,
                Fetch::Reload,
            )
        },
        Action::CommitLiveFilter => t == (AppState { mode: Mode::Navigation, ..s }) && r is None,
        Action::TypeQuery(c) => {
            &&& t == (AppState { query_input: t.query_input, ..s })
            &&& t.query_input@ == s.query_input@.push(c)
            &&& r is None
        },
        Action::EraseQuery => {
            &&& t == (AppState { query_input: t.query_input, ..s })
            &&& t.query_input@ == erased(s.query_input@)
            &&& r is None
        },
        Action::CancelQuery => {
            &&& t == (AppState { query_input: t.query_input, mode: Mode::Navigation, ..s })
            &&& t.query_input@.len() == 0
            &&& r is None
        },
        Action::ApplyQuery => if document_read(s.query_input@) is Some {
            &&& t.filter matches Some(f) && document_read(s.query_input@) == Some(entries(f))
            &&& fetched(
                AppState { filter: t.filter, mode: Mode::Navigation, ..s },
                t,
                r,
                t.filter,
                s.page_size,
                Fetch::Query,
            )
        } else {
            &&& t == (AppState { error: t.error, ..s })
            &&& t.error matches Some(m) && "Invalid filter: "@.is_prefix_of(m@)
            &&& r is None
        },
    }
}

/// `s` once a fetch is over and went well.
pub open spec fn done(s: AppState) -> AppState {
    AppState { loading: false, error: None, ..s }
}

/// `t` is `s` after a fetch failed: the error says `head` and what went
/// wrong, the fetch is over, and nothing else has changed.
pub open spec fn failed(s: AppState, t: AppState, head: Seq<char>, e: AppError) -> bool {
    &&& t == (AppState { error: t.error, loading: false, ..s })
    &&& t.error matches Some(m) && m@ == head + e.text()
}

/// What the error says first when fetching documents for `purpose` failed.
pub open spec fn documents_failure(purpose: Fetch) -> Seq<char> {
    match purpose {
        Fetch::Open => "Failed to load documents: "@,
        Fetch::Refresh => "Failed to refresh: "@,
        Fetch::Reload => "Failed to reload: "@,
        Fetch::Query => "Query failed: "@,
        Fetch::Sample => "Failed to analyze fields: "@,
        Fetch::Search => "Search error: "@,
    }
}

fn documents_failure_head(purpose: Fetch) -> (r: &'static str)
    ensures
        r@ == documents_failure(purpose),
{
    match purpose {
        Fetch::Open => "Failed to load documents: ",
        Fetch::Refresh => "Failed to refresh: ",
        Fetch::Reload => "Failed to reload: ",
        Fetch::Query => "Query failed: ",
        Fetch::Sample => "Failed to analyze fields: ",
        Fetch::Search => "Search error: ",
    }
}

/// `t` and `r` are what the documents `docs`, fetched for `purpose`, make
/// of `s`.
pub open spec fn documents_arrived(
    s: AppState,
    t: AppState,
    purpose: Fetch,
    collection: String,
    docs: Vec<Document>,
    r: Option<Command>,
) -> bool {
    match purpose {
        Fetch::Open => r is None && t == done(
            AppState {
                current_collection: Some(collection),
                ..s
            }.documents_replaced(docs).on_screen(Screen::DocumentView),
        ),
        Fetch::Sample => if docs@.len() == 0 {
            r is None && t == done(s.documents_replaced(docs))
        } else if searchable_fields(keys_of(docs@[0])).len() == 0 {
            fetched(s, t, r, None, s.page_size, Fetch::Reload)
        } else {
            exists|f: Document|
                entries(f) == any_field_contains(
                    searchable_fields(keys_of(docs@[0])),
                    s.filter_input@,
                ) && fetched(s, t, r, Some(f), s.page_size, Fetch::Search)
        },
        _ => r is None && t == done(s.documents_reloaded(docs)),
    }
}

/// Refreshing the documents twice in a row, with the server answering the
/// same both times, asks the same of the server both times and ends with the
/// same documents, and indeed the same session, as the first refresh.
pub proof fn lemma_refresh_documents_twice(
    s0: AppState,
    s1: AppState,
    s2: AppState,
    s3: AppState,
    s4: AppState,
    r1: Option<Command>,
    r3: Option<Command>,
    q: QueryParams,
    docs: Vec<Document>,
)
    requires
        s0.wf(),
        applied(s0, s1, Action::RefreshDocuments, r1),
        r1 == Some(Command::FindDocuments { query: q, purpose: Fetch::Refresh }),
        documents_arrived(s1, s2, Fetch::Refresh, q.collection, docs, None),
        applied(s2, s3, Action::RefreshDocuments, r3),
        documents_arrived(s3, s4, Fetch::Refresh, q.collection, docs, None),
    ensures
        r3 == r1,
        s4.documents == s2.documents,
        s4 == s2,
{
}

/// Editing the live search text down to nothing asks for exactly what
/// clearing the filter asks for: the first page of the open collection with
/// no filter, and no sample. The documents that come back are taken as a
/// refresh takes them, and the stored filter stays as it was.
pub proof fn lemma_empty_search_is_unfiltered(
    s: AppState,
    t: AppState,
    r: Option<Command>,
    a: Action,
    t2: AppState,
    r2: Option<Command>,
    t3: AppState,
    collection: String,
    docs: Vec<Document>,
)
    requires
        s.wf(),
        a is TypeFilter || a is EraseFilter,
        applied(s, t, a, r),
        t.filter_input@.len() == 0,
        applied(s, t2, Action::ClearFilter, r2),
        documents_arrived(t, t3, Fetch::Reload, collection, docs, None),
    ensures
        r == documents_request(s, None, s.page_size, Fetch::Reload),
        r == r2,
        r matches Some(Command::FindDocuments { query, purpose }) ==> query.filter is None
            && query.skip == 0 && query.limit == s.page_size as int && purpose == Fetch::Reload,
        t.filter == s.filter,
        t3 == done(t.documents_reloaded(docs)),
        t3.documents == docs,
        t3.filter == s.filter,
{
}

impl AppState {
    /// Marks a fetch as under way.
    fn begin_fetch(&mut self)
        ensures
            *final(self) == old(self).fetching(),
    {
        self.loading = true;
        self.error = None;
    }

    /// Asks for documents of the open collection, if one is open.
    fn request_documents(&mut self, filter: Option<Document>, limit: usize, purpose: Fetch) -> (r:
        Option<Command>)
        requires
            limit <= i64::MAX,
        ensures
            fetched(*old(self), *final(self), r, filter, limit, purpose),
    {
        let db = match &self.current_database {
            Some(d) => d.clone(),
            None => return None,
        };
        let coll = match &self.current_collection {
            Some(c) => c.clone(),
            None => return None,
        };
        self.begin_fetch();
        let query = QueryParams {
            database: db,
            collection: coll,
            filter,
            skip: 0,
            limit: limit as i64,
            sort: None,
        };
        Some(Command::FindDocuments { query, purpose })
    }

    /// A live search on the current text: the page without filter where the
    /// text is empty, else a request for one sample document.
    fn live_search(&mut self) -> (r: Option<Command>)
        requires
            old(self).page_size <= i64::MAX,
        ensures
            live_step(*old(self), *final(self), r),
    {
        if self.filter_input.as_str().is_empty() {
            let n = self.page_size;
            self.request_documents(None, n, Fetch::Reload)
        } else {
            self.request_documents(None, 1, Fetch::Sample)
        }
    }

    /// Does what `a` asks.
    pub fn apply(&mut self, a: Action) -> (r: Option<Command>)
        requires
            old(self).wf(),
            action_fits(old(self).current_screen, a),
        ensures
            applied(*old(self), *final(self), a, r),
            final(self).wf(),
    {
        match a {
            Action::Nothing => None,
            Action::Quit => {
                self.quit();
                None
            },
            Action::TypeUri(c) => {
                push_char(&mut self.connection_input, c);
                None
            },
            Action::EraseUri => {
                pop_char(&mut self.connection_input);
                None
            },
            Action::ClearUri => {
                self.connection_input = String::new();
                self.error = None;
                None
            },
            Action::PasteUri => Some(Command::ReadClipboard),
            Action::ToggleHistory => {
                self.mode = if self.mode == Mode::BrowsingHistory {
                    Mode::EditingUri
                } else {
                    Mode::BrowsingHistory
                };
                None
            },
            Action::HistoryNext => {
                self.select_next_history();
                None
            },
            Action::HistoryPrev => {
                self.select_prev_history();
                None
            },
            Action::UseHistoryEntry => {
                if self.selected_history_index < self.connection_history.uris.len() {
                    self.connection_input =
                        self.connection_history.uris[self.selected_history_index].clone();
                    self.mode = Mode::EditingUri;
                }
                None
            },
            Action::Connect => {
                let uri = self.connection_input.clone();
                self.begin_fetch();
                Some(Command::Connect { uri })
            },
            Action::NextDatabase => {
                self.select_next_db();
                None
            },
            Action::PrevDatabase => {
                self.select_prev_db();
                None
            },
            Action::OpenDatabase => {
                if self.selected_db_index < self.databases.len() {
                    let database = self.databases[self.selected_db_index].name.clone();
                    self.begin_fetch();
                    Some(Command::ListCollections { database, refresh: false })
                } else {
                    None
                }
            },
            Action::RefreshDatabases => {
                self.begin_fetch();
                Some(Command::ListDatabases { refresh: true })
            },
            Action::NextCollection => {
                self.select_next_coll();
                None
            },
            Action::PrevCollection => {
                self.select_prev_coll();
                None
            },
            Action::OpenCollection => {
                let db = match &self.current_database {
                    Some(d) => d.clone(),
                    None => return None,
                };
                if self.selected_coll_index < self.collections.len() {
                    let coll = self.collections[self.selected_coll_index].name.clone();
                    self.begin_fetch();
                    let query = QueryParams {
                        database: db,
                        collection: coll,
                        filter: None,
                        skip: 0,
                        limit: self.page_size as i64,
                        sort: None,
                    };
                    Some(Command::FindDocuments { query, purpose: Fetch::Open })
                } else {
                    None
                }
            },
            Action::RefreshCollections => {
                let database = match &self.current_database {
                    Some(d) => d.clone(),
                    None => return None,
                };
                self.begin_fetch();
                Some(Command::ListCollections { database, refresh: true })
            },
            Action::BackToDatabases => {
                self.set_screen(Screen::DatabaseList);
                None
            },
            Action::NextDocument => {
                self.select_next_doc();
                None
            },
            Action::PrevDocument => {
                self.select_prev_doc();
                None
            },
            Action::ScrollDown => {
                self.scroll_doc_down();
                None
            },
            Action::ScrollUp => {
                self.scroll_doc_up();
                None
            },
            Action::BackToCollections => {
                self.set_screen(Screen::CollectionList);
                None
            },
            Action::StartLiveFilter => {
                self.mode = Mode::LiveFilter;
                None
            },
            Action::StartQuery => {
                self.mode = Mode::StructuredQuery;
                None
            },
            Action::ClearFilter => {
                self.filter = None;
                let n = self.page_size;
                self.request_documents(None, n, Fetch::Reload)
            },
            Action::RefreshDocuments => {
                let filter = match &self.filter {
                    Some(f) => Some(f.clone()),
                    None => None,
                };
                let n = self.page_size;
                self.request_documents(filter, n, Fetch::Refresh)
            },
            Action::TypeFilter(c) => {
                push_char(&mut self.filter_input, c);
                self.live_search()
            },
            Action::EraseFilter => {
                pop_char(&mut self.filter_input);
                self.live_search()
            },
            Action::CancelLiveFilter => {
                self.mode = Mode::Navigation;
                self.filter_input = String::new();
                let n = self.page_size;
                self.request_documents(None, n, Fetch::Reload)
            },
            Action::CommitLiveFilter => {
                self.mode = Mode::Navigation;
                None
            },
            Action::TypeQuery(c) => {
                push_char(&mut self.query_input, c);
                None
            },
            Action::EraseQuery => {
                pop_char(&mut self.query_input);
                None
            },
            Action::CancelQuery => {
                self.mode = Mode::Navigation;
                self.query_input = String::new();
                None
            },
            Action::ApplyQuery => {
                match parse_filter(self.query_input.as_str()) {
                    Ok(f) => {
                        let copy = f.clone();
                        self.filter = Some(f);
                        self.mode = Mode::Navigation;
                        let n = self.page_size;
                        self.request_documents(Some(copy), n, Fetch::Query)
                    },
                    Err(msg) => {
                        self.error = Some(msg);
                        None
                    },
                }
            },
        }
    }

    /// Reads one key press: does what it asks on the current screen, in the
    /// current mode, and hands out the work that follows.
    pub fn handle_key(&mut self, key: Key) -> (r: Option<Command>)
        requires
            old(self).wf(),
        ensures
            applied(
                *old(self),
                *final(self),
                action_of(old(self).current_screen, old(self).mode, key),
                r,
            ),
            final(self).wf(),
    {
        let a = action_for(self.current_screen, self.mode, key);
        self.apply(a)
    }

    /// Sets the error to `head` followed by what went wrong, and ends the fetch.
    fn fail(&mut self, head: &str, e: &AppError)
        ensures
            failed(*old(self), *final(self), head@, *e),
    {
        self.error = Some(with_context(head, e));
        self.loading = false;
    }

    /// Ends a fetch that went well.
    fn succeed(&mut self)
        ensures
            *final(self) == done(*old(self)),
    {
        self.loading = false;
        self.error = None;
    }

    /// Appends text read from the clipboard to the connection string.
    pub fn paste_text(&mut self, text: &str)
        ensures
            *final(self) == (AppState { connection_input: final(self).connection_input, ..*old(self) }),
            final(self).connection_input@ == old(self).connection_input@ + text@,
    {
        let cs = chars_of(text);
        let mut i: usize = 0;
        while i < cs.len()
            invariant
                0 <= i <= cs.len(),
                cs@ == text@,
                *self == (AppState { connection_input: self.connection_input, ..*old(self) }),
                self.connection_input@ == old(self).connection_input@ + text@.take(i as int),
            decreases cs.len() - i,
        {
            push_char(&mut self.connection_input, cs[i]);
            assert(text@.take(i as int + 1) =~= text@.take(i as int).push(cs@[i as int]));
            i = i + 1;
        }
        assert(text@.take(i as int) =~= text@);
    }

    /// Takes the outcome of connecting to `uri`. On success the session
    /// keeps the server, puts `uri` first in the history, and asks for the
    /// history to be stored.
    pub fn finish_connect(&mut self, uri: String, result: Result<ServerInfo, AppError>) -> (r:
        Option<Command>)
        requires
            old(self).wf(),
        ensures
            final(self).wf(),
            match result {
                Ok(info) => {
                    &&& *final(self) == (AppState {
                        connection: Some(ConnectionState { uri, server_info: info }),
                        connection_history: final(self).connection_history,
                        selected_history_index: 0,
                        loading: true,
                        error: None,
                        ..*old(self)
                    })
                    &&& final(self).connection_history@ == with_recent(
                        old(self).connection_history@,
                        uri@,
                    )
                    &&& r == Some(Command::SaveHistory)
                },
                Err(e) => failed(*old(self), *final(self), "Connection failed: "@, e) && r is None,
            },
    {
        match result {
            Ok(info) => {
                let kept = uri.clone();
                self.connection_history.add_uri(kept);
                self.selected_history_index = 0;
                self.set_connection(uri, info);
                self.begin_fetch();
                Some(Command::SaveHistory)
            },
            Err(e) => {
                self.fail("Connection failed: ", &e);
                None
            },
        }
    }

    /// Goes on once the history is stored, or failed to be: asks for the
    /// server's databases.
    pub fn finish_save_history(&mut self) -> (r: Option<Command>)
        ensures
            *final(self) == old(self).fetching(),
            r == Some(Command::ListDatabases { refresh: false }),
    {
        self.begin_fetch();
        Some(Command::ListDatabases { refresh: false })
    }

    /// Takes the server's databases: a fresh copy of the list where
    /// `refresh`, else the list shown on its own screen.
    pub fn finish_databases(&mut self, refresh: bool, result: Result<Vec<DatabaseInfo>, AppError>)
        requires
            old(self).wf(),
        ensures
            final(self).wf(),
            match result {
                Ok(list) => *final(self) == done(
                    if refresh {
                        old(self).databases_reloaded(list)
                    } else {
                        old(self).databases_replaced(list).on_screen(Screen::DatabaseList)
                    },
                ),
                Err(e) => failed(
                    *old(self),
                    *final(self),
                    if refresh {
                        "Failed to refresh databases: "@
                    } else {
                        "Failed to load databases: "@
                    },
                    e,
                ),
            },
    {
        match result {
            Ok(list) => {
                if refresh {
                    self.reload_databases(list);
                } else {
                    self.set_databases(list);
                    self.set_screen(Screen::DatabaseList);
                }
                self.succeed();
            },
            Err(e) => {
                if refresh {
                    self.fail("Failed to refresh databases: ", &e);
                } else {
                    self.fail("Failed to load databases: ", &e);
                }
            },
        }
    }

    /// Takes the collections of `database`: a fresh copy of the list where
    /// `refresh`, else that database opened on the collection screen.
    pub fn finish_collections(
        &mut self,
        database: String,
        refresh: bool,
        result: Result<Vec<CollectionInfo>, AppError>,
    )
        requires
            old(self).wf(),
        ensures
            final(self).wf(),
            match result {
                Ok(list) => *final(self) == done(
                    if refresh {
                        old(self).collections_reloaded(list)
                    } else {
                        AppState {
                            current_database: Some(database),
                            ..*old(self)
                        }.collections_replaced(list).on_screen(Screen::CollectionList)
                    },
                ),
                Err(e) => failed(
                    *old(self),
                    *final(self),
                    if refresh {
                        "Failed to refresh collections: "@
                    } else {
                        "Failed to load collections: "@
                    },
                    e,
                ),
            },
    {
        match result {
            Ok(list) => {
                if refresh {
                    self.reload_collections(list);
                } else {
                    self.current_database = Some(database);
                    self.set_collections(list);
                    self.set_screen(Screen::CollectionList);
                }
                self.succeed();
            },
            Err(e) => {
                if refresh {
                    self.fail("Failed to refresh collections: ", &e);
                } else {
                    self.fail("Failed to load collections: ", &e);
                }
            },
        }
    }

    /// Takes documents fetched by `query` for `purpose`. A sample of a live
    /// search leads on to the search itself.
    pub fn finish_documents(
        &mut self,
        query: QueryParams,
        purpose: Fetch,
        result: Result<Vec<Document>, AppError>,
    ) -> (r: Option<Command>)
        requires
            old(self).wf(),
        ensures
            final(self).wf(),
            match result {
                Ok(docs) => documents_arrived(
                    *old(self),
                    *final(self),
                    purpose,
                    query.collection,
                    docs,
                    r,
                ),
                Err(e) => failed(*old(self), *final(self), documents_failure(purpose), e)
                    && r is None,
            },
    {
        match result {
            Ok(docs) => match purpose {
                Fetch::Open => {
                    self.current_collection = Some(query.collection);
                    self.set_documents(docs);
                    self.set_screen(Screen::DocumentView);
                    self.succeed();
                    None
                },
                Fetch::Sample => {
                    if docs.len() == 0 {
                        self.set_documents(docs);
                        self.succeed();
                        return None;
                    }
                    let n = self.page_size;
                    match live_filter(&docs[0], self.filter_input.as_str()) {
                        Some(f) => self.request_documents(Some(f), n, Fetch::Search),
                        None => self.request_documents(None, n, Fetch::Reload),
                    }
                },
                _ => {
                    self.reload_documents(docs);
                    self.succeed();
                    None
                },
            },
            Err(e) => {
                self.fail(documents_failure_head(purpose), &e);
                None
            },
        }
    }
}

} // verus!
