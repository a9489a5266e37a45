use crate::history::ConnectionHistory;
use crate::models::{CollectionInfo, DatabaseInfo, ServerInfo};
use mongodb::bson::Document;
use vstd::prelude::*;

verus! {

/// Number of documents fetched per page.
pub const PAGE_SIZE: usize = 20;

/// The four views of a session.
#[derive(Debug, Clone, Copy, PartialEq, Eq, Structural)]
pub enum Screen {
    Connection,
    DatabaseList,
    CollectionList,
    DocumentView,
}

/// How input is read on the current screen; exactly one at a time.
#[derive(Debug, Clone, Copy, PartialEq, Eq, Structural)]
pub enum Mode {
    /// Typing a connection string.
    EditingUri,
    /// Picking a connection string used before.
    BrowsingHistory,
    /// Moving through a list of databases or collections.
    Browsing,
    /// Moving through documents.
    Navigation,
    /// Typing text that every field of the documents is searched for.
    LiveFilter,
    /// Typing a filter document.
    StructuredQuery,
}

/// Whether `mode` is one that `screen` reads input in.
pub open spec fn mode_fits(screen: Screen, mode: Mode) -> bool {
    match screen {
        Screen::Connection => mode == Mode::EditingUri || mode == Mode::BrowsingHistory,
        Screen::DatabaseList | Screen::CollectionList => mode == Mode::Browsing,
        Screen::DocumentView => mode == Mode::Navigation || mode == Mode::LiveFilter || mode
            == Mode::StructuredQuery,
    }
}

/// The mode a screen starts in.
pub open spec fn initial_mode(screen: Screen) -> Mode {
    match screen {
        Screen::Connection => Mode::EditingUri,
        Screen::DatabaseList | Screen::CollectionList => Mode::Browsing,
        Screen::DocumentView => Mode::Navigation,
    }
}

/// A cursor into a list of `len` entries: on an entry, or at 0 when there is none.
pub open spec fn fits(i: usize, len: nat) -> bool {
    if len == 0 {
        i == 0
    } else {
        i < len
    }
}

/// The cursor `i` kept on a list that now has `len` entries.
pub open spec fn clamp(i: usize, len: nat) -> usize {
    if len == 0 {
        0
    } else if i < len {
        i
    } else {
        (len - 1) as usize
    }
}

/// The entry after `i`, from the last back to the first.
pub open spec fn next_index(i: usize, len: nat) -> usize {
    if len == 0 {
        i
    } else {
        ((i + 1) % (len as int)) as usize
    }
}

/// The entry before `i`, from the first round to the last.
pub open spec fn prev_index(i: usize, len: nat) -> usize {
    if len == 0 {
        i
    } else if i == 0 {
        (len - 1) as usize
    } else {
        (i - 1) as usize
    }
}

fn clamp_index(i: usize, len: usize) -> (r: usize)
    ensures
        r == clamp(i, len as nat),
        fits(r, len as nat),
{
    if len == 0 {
        0
    } else if i < len {
        i
    } else {
        len - 1
    }
}

fn next_of(i: usize, len: usize) -> (r: usize)
    requires
        fits(i, len as nat),
    ensures
        r == next_index(i, len as nat),
        fits(r, len as nat),
{
    if len == 0 {
        i
    } else {
        (i + 1) % len
    }
}

fn prev_of(i: usize, len: usize) -> (r: usize)
    requires
        fits(i, len as nat),
    ensures
        r == prev_index(i, len as nat),
        fits(r, len as nat),
{
    if len == 0 {
        i
    } else if i == 0 {
        len - 1
    } else {
        i - 1
    }
}

/// Each cursor stays on its list: a list put in place of another starts at
/// its first entry, and a fresh copy of a list keeps the cursor where it was
/// when the entry is still there, else moves it to the new last entry.
pub proof fn lemma_cursors_stay_on_lists(
    s: AppState,
    dbs: Vec<DatabaseInfo>,
    colls: Vec<CollectionInfo>,
    docs: Vec<Document>,
)
    requires
        s.wf(),
    ensures
        s.databases_replaced(dbs).wf() && s.databases_replaced(dbs).selected_db_index == 0,
        s.collections_replaced(colls).wf() && s.collections_replaced(colls).selected_coll_index
            == 0,
        s.documents_replaced(docs).wf() && s.documents_replaced(docs).selected_doc_index == 0,
        s.databases_reloaded(dbs).wf(),
        s.collections_reloaded(colls).wf(),
        s.documents_reloaded(docs).wf(),
        s.selected_db_index < dbs@.len() ==> s.databases_reloaded(dbs).selected_db_index
            == s.selected_db_index,
        s.selected_db_index >= dbs@.len() > 0 ==> s.databases_reloaded(dbs).selected_db_index
            == dbs@.len() - 1,
        s.selected_coll_index < colls@.len() ==> s.collections_reloaded(colls).selected_coll_index
            == s.selected_coll_index,
        s.selected_coll_index >= colls@.len() > 0 ==> s.collections_reloaded(
            colls,
        ).selected_coll_index == colls@.len() - 1,
        s.selected_doc_index < docs@.len() ==> s.documents_reloaded(docs).selected_doc_index
            == s.selected_doc_index,
        s.selected_doc_index >= docs@.len() > 0 ==> s.documents_reloaded(docs).selected_doc_index
            == docs@.len() - 1,
{
}

/// The server a session is connected to, and the string it was reached by.
#[derive(Debug, Clone)]
pub struct ConnectionState {
    pub uri: String,
    pub server_info: ServerInfo,
}

/// Everything a session shows and remembers between two inputs.
#[derive(Debug)]
pub struct AppState {
    pub connection: Option<ConnectionState>,
    pub current_database: Option<String>,
    pub current_collection: Option<String>,
    pub databases: Vec<DatabaseInfo>,
    pub collections: Vec<CollectionInfo>,
    pub documents: Vec<Document>,
    pub current_page: usize,
    pub page_size: usize,
    pub filter: Option<Document>,
    pub loading: bool,
    pub error: Option<String>,
    pub should_quit: bool,
    pub selected_db_index: usize,
    pub selected_coll_index: usize,
    pub current_screen: Screen,
    pub mode: Mode,
    pub selected_doc_index: usize,
    pub doc_scroll_offset: usize,
    pub connection_input: String,
    pub filter_input: String,
    pub query_input: String,
    pub connection_history: ConnectionHistory,
    pub selected_history_index: usize,
}

impl Default for AppState {
    /// The same fresh session as `new`.
    fn default() -> (r: Self)
        ensures
            r.wf(),
            r.connection is None,
            r.current_database is None,
            r.current_collection is None,
            r.current_screen == Screen::Connection,
            r.mode == Mode::EditingUri,
            r.databases@.len() == 0,
            r.collections@.len() == 0,
            r.documents@.len() == 0,
            r.filter is None,
            r.page_size == PAGE_SIZE,
            r.current_page == 0,
            !r.loading,
            r.error is None,
            !r.should_quit,
            r.selected_db_index == 0,
            r.selected_coll_index == 0,
            r.selected_doc_index == 0,
            r.selected_history_index == 0,
            r.doc_scroll_offset == 0,
            r.connection_input@.len() == 0,
            r.filter_input@.len() == 0,
            r.query_input@.len() == 0,
            r.connection_history@.len() == 0,
    {
        AppState::new()
    }
}

impl AppState {
    /// Every cursor on its list, a mode of the current screen, a history
    /// within its limit and without duplicates, and a page size a query can
    /// carry.
    pub open spec fn wf(&self) -> bool {
        &&& fits(self.selected_db_index, self.databases@.len())
        &&& fits(self.selected_coll_index, self.collections@.len())
        &&& fits(self.selected_doc_index, self.documents@.len())
        &&& fits(self.selected_history_index, self.connection_history@.len())
        &&& mode_fits(self.current_screen, self.mode)
        &&& self.connection_history.wf()
        &&& self.page_size <= i64::MAX
    }

    /// A fetch is under way: `loading` set, no error.
    pub open spec fn fetching(self) -> Self {
        AppState { loading: true, error: None, ..self }
    }

    /// `self` on `screen`, in the mode it starts in.
    pub open spec fn on_screen(self, screen: Screen) -> Self {
        AppState { current_screen: screen, mode: initial_mode(screen), ..self }
    }

    /// `self` with `databases` in place of its list, the cursor on the first.
    pub open spec fn databases_replaced(self, databases: Vec<DatabaseInfo>) -> Self {
        AppState { databases: databases, selected_db_index: 0, ..self }
    }

    /// `self` with `collections` in place of its list, the cursor on the first.
    pub open spec fn collections_replaced(self, collections: Vec<CollectionInfo>) -> Self {
        AppState { collections: collections, selected_coll_index: 0, ..self }
    }

    /// `self` with `documents` in place of its list, the cursor on the first.
    pub open spec fn documents_replaced(self, documents: Vec<Document>) -> Self {
        AppState { documents: documents, selected_doc_index: 0, ..self }
    }

    /// `self` with a fresh copy of its databases, the cursor kept within it.
    pub open spec fn databases_reloaded(self, databases: Vec<DatabaseInfo>) -> Self {
        AppState {
            databases: databases,
            selected_db_index: clamp(self.selected_db_index, databases@.len()),
            ..self
        }
    }

    /// `self` with a fresh copy of its collections, the cursor kept within it.
    pub open spec fn collections_reloaded(self, collections: Vec<CollectionInfo>) -> Self {
        AppState {
            collections: collections,
            selected_coll_index: clamp(self.selected_coll_index, collections@.len()),
            ..self
        }
    }

    /// `self` with a fresh page of documents, the cursor kept within it.
    pub open spec fn documents_reloaded(self, documents: Vec<Document>) -> Self {
        AppState {
            documents: documents,
            selected_doc_index: clamp(self.selected_doc_index, documents@.len()),
            ..self
        }
    }

    /// A fresh session: not connected, on the connection screen, nothing
    /// fetched.
    pub fn new() -> (r: Self)
        ensures
            r.wf(),
            r.connection is None,
            r.current_database is None,
            r.current_collection is None,
            r.current_screen == Screen::Connection,
            r.mode == Mode::EditingUri,
            r.databases@.len() == 0,
            r.collections@.len() == 0,
            r.documents@.len() == 0,
            r.filter is None,
            r.page_size == PAGE_SIZE,
            r.current_page == 0,
            !r.loading,
            r.error is None,
            !r.should_quit,
            r.selected_db_index == 0,
            r.selected_coll_index == 0,
            r.selected_doc_index == 0,
            r.selected_history_index == 0,
            r.doc_scroll_offset == 0,
            r.connection_input@.len() == 0,
            r.filter_input@.len() == 0,
            r.query_input@.len() == 0,
            r.connection_history@.len() == 0,
    {
        AppState {
            connection: None,
            current_database: None,
            current_collection: None,
            databases: Vec::new(),
            collections: Vec::new(),
            documents: Vec::new(),
            current_page: 0,
            page_size: PAGE_SIZE,
            filter: None,
            loading: false,
            error: None,
            should_quit: false,
            selected_db_index: 0,
            selected_coll_index: 0,
            current_screen: Screen::Connection,
            mode: Mode::EditingUri,
            selected_doc_index: 0,
            doc_scroll_offset: 0,
            connection_input: String::new(),
            filter_input: String::new(),
            query_input: String::new(),
            connection_history: ConnectionHistory::new(),
            selected_history_index: 0,
        }
    }

    pub fn set_connection(&mut self, uri: String, server_info: ServerInfo)
        ensures
            *final(self) == (AppState {
                connection: Some(ConnectionState { uri, server_info }),
                ..*old(self)
            }),
    {
        self.connection = Some(ConnectionState { uri, server_info });
    }

    pub fn set_databases(&mut self, databases: Vec<DatabaseInfo>)
        ensures
            *final(self) == old(self).databases_replaced(databases),
            old(self).wf() ==> final(self).wf(),
    {
        self.databases = databases;
        self.selected_db_index = 0;
    }

    pub fn set_collections(&mut self, collections: Vec<CollectionInfo>)
        ensures
            *final(self) == old(self).collections_replaced(collections),
            old(self).wf() ==> final(self).wf(),
    {
        self.collections = collections;
        self.selected_coll_index = 0;
    }

    pub fn set_documents(&mut self, documents: Vec<Document>)
        ensures
            *final(self) == old(self).documents_replaced(documents),
            old(self).wf() ==> final(self).wf(),
    {
        self.documents = documents;
        self.selected_doc_index = 0;
    }

    /// Puts a fresh copy of the databases in place, keeping the cursor within it.
    pub fn reload_databases(&mut self, databases: Vec<DatabaseInfo>)
        ensures
            *final(self) == old(self).databases_reloaded(databases),
            old(self).wf() ==> final(self).wf(),
    {
        self.selected_db_index = clamp_index(self.selected_db_index, databases.len());
        self.databases = databases;
    }

    /// Puts a fresh copy of the collections in place, keeping the cursor within it.
    pub fn reload_collections(&mut self, collections: Vec<CollectionInfo>)
        ensures
            *final(self) == old(self).collections_reloaded(collections),
            old(self).wf() ==> final(self).wf(),
    {
        self.selected_coll_index = clamp_index(self.selected_coll_index, collections.len());
        self.collections = collections;
    }

    /// Puts a fresh page of documents in place, keeping the cursor within it.
    pub fn reload_documents(&mut self, documents: Vec<Document>)
        ensures
            *final(self) == old(self).documents_reloaded(documents),
            old(self).wf() ==> final(self).wf(),
    {
        self.selected_doc_index = clamp_index(self.selected_doc_index, documents.len());
        self.documents = documents;
    }

    pub fn set_loading(&mut self, loading: bool)
        ensures
            *final(self) == (AppState { loading, ..*old(self) }),
    {
        self.loading = loading;
    }

    pub fn set_error(&mut self, error: Option<String>)
        ensures
            *final(self) == (AppState { error, ..*old(self) }),
    {
        self.error = error;
    }

    pub fn quit(&mut self)
        ensures
            *final(self) == (AppState { should_quit: true, ..*old(self) }),
    {
        self.should_quit = true;
    }

    pub fn is_connected(&self) -> (r: bool)
        ensures
            r == self.connection is Some,
    {
        self.connection.is_some()
    }

    pub fn select_next_db(&mut self)
        requires
            old(self).wf(),
        ensures
            *final(self) == (AppState {
                selected_db_index: next_index(old(self).selected_db_index, old(self).databases@.len()),
                ..*old(self)
            }),
            final(self).wf(),
    {
        self.selected_db_index = next_of(self.selected_db_index, self.databases.len());
    }

    pub fn select_prev_db(&mut self)
        requires
            old(self).wf(),
        ensures
            *final(self) == (AppState {
                selected_db_index: prev_index(old(self).selected_db_index, old(self).databases@.len()),
                ..*old(self)
            }),
            final(self).wf(),
    {
        self.selected_db_index = prev_of(self.selected_db_index, self.databases.len());
    }

    pub fn select_next_coll(&mut self)
        requires
            old(self).wf(),
        ensures
            *final(self) == (AppState {
                selected_coll_index: next_index(
                    old(self).selected_coll_index,
                    old(self).collections@.len(),
                ),
                ..*old(self)
            }),
            final(self).wf(),
    {
        self.selected_coll_index = next_of(self.selected_coll_index, self.collections.len());
    }

    pub fn select_prev_coll(&mut self)
        requires
            old(self).wf(),
        ensures
            *final(self) == (AppState {
                selected_coll_index: prev_index(
                    old(self).selected_coll_index,
                    old(self).collections@.len(),
                ),
                ..*old(self)
            }),
            final(self).wf(),
    {
        self.selected_coll_index = prev_of(self.selected_coll_index, self.collections.len());
    }

    pub fn select_next_doc(&mut self)
        requires
            old(self).wf(),
        ensures
            *final(self) == (AppState {
                selected_doc_index: next_index(old(self).selected_doc_index, old(self).documents@.len()),
                ..*old(self)
            }),
            final(self).wf(),
    {
        self.selected_doc_index = next_of(self.selected_doc_index, self.documents.len());
    }

    pub fn select_prev_doc(&mut self)
        requires
            old(self).wf(),
        ensures
            *final(self) == (AppState {
                selected_doc_index: prev_index(old(self).selected_doc_index, old(self).documents@.len()),
                ..*old(self)
            }),
            final(self).wf(),
    {
        self.selected_doc_index = prev_of(self.selected_doc_index, self.documents.len());
    }

    pub fn select_next_history(&mut self)
        requires
            old(self).wf(),
        ensures
            *final(self) == (AppState {
                selected_history_index: next_index(
                    old(self).selected_history_index,
                    old(self).connection_history@.len(),
                ),
                ..*old(self)
            }),
            final(self).wf(),
    {
        self.selected_history_index = next_of(
            self.selected_history_index,
            self.connection_history.uris.len(),
        );
    }

    pub fn select_prev_history(&mut self)
        requires
            old(self).wf(),
        ensures
            *final(self) == (AppState {
                selected_history_index: prev_index(
                    old(self).selected_history_index,
                    old(self).connection_history@.len(),
                ),
                ..*old(self)
            }),
            final(self).wf(),
    {
        self.selected_history_index = prev_of(
            self.selected_history_index,
            self.connection_history.uris.len(),
        );
    }

    pub fn get_selected_database(&self) -> (r: Option<&DatabaseInfo>)
        ensures
            self.selected_db_index < self.databases@.len() ==> r == Some(
                &self.databases@[self.selected_db_index as int],
            ),
            self.selected_db_index >= self.databases@.len() ==> r is None,
    {
        if self.selected_db_index < self.databases.len() {
            Some(&self.databases[self.selected_db_index])
        } else {
            None
        }
    }

    pub fn get_selected_collection(&self) -> (r: Option<&CollectionInfo>)
        ensures
            self.selected_coll_index < self.collections@.len() ==> r == Some(
                &self.collections@[self.selected_coll_index as int],
            ),
            self.selected_coll_index >= self.collections@.len() ==> r is None,
    {
        if self.selected_coll_index < self.collections.len() {
            Some(&self.collections[self.selected_coll_index])
        } else {
            None
        }
    }

    pub fn get_selected_document(&self) -> (r: Option<&Document>)
        ensures
            self.selected_doc_index < self.documents@.len() ==> r == Some(
                &self.documents@[self.selected_doc_index as int],
            ),
            self.selected_doc_index >= self.documents@.len() ==> r is None,
    {
        if self.selected_doc_index < self.documents.len() {
            Some(&self.documents[self.selected_doc_index])
        } else {
            None
        }
    }

    pub fn get_selected_history_uri(&self) -> (r: Option<&String>)
        ensures
            self.selected_history_index < self.connection_history@.len() ==> r == Some(
                &self.connection_history.uris@[self.selected_history_index as int],
            ),
            self.selected_history_index >= self.connection_history@.len() ==> r is None,
    {
        if self.selected_history_index < self.connection_history.uris.len() {
            Some(&self.connection_history.uris[self.selected_history_index])
        } else {
            None
        }
    }

    /// Moves to `screen`, in the mode it starts in.
    pub fn set_screen(&mut self, screen: Screen)
        ensures
            *final(self) == old(self).on_screen(screen),
            old(self).wf() ==> final(self).wf(),
    {
        self.current_screen = screen;
        self.mode = match screen {
            Screen::Connection => Mode::EditingUri,
            Screen::DatabaseList | Screen::CollectionList => Mode::Browsing,
            Screen::DocumentView => Mode::Navigation,
        };
    }

    pub fn scroll_doc_down(&mut self)
        ensures
            *final(self) == (AppState {
                doc_scroll_offset: if old(self).doc_scroll_offset < usize::MAX {
                    (old(self).doc_scroll_offset + 1) as usize
                } else {
                    old(self).doc_scroll_offset
                },
                ..*old(self)
            }),
    {
        if self.doc_scroll_offset < usize::MAX {
            self.doc_scroll_offset = self.doc_scroll_offset + 1;
        }
    }

    pub fn scroll_doc_up(&mut self)
        ensures
            *final(self) == (AppState {
                doc_scroll_offset: if old(self).doc_scroll_offset > 0 {
                    (old(self).doc_scroll_offset - 1) as usize
                } else {
                    0
                },
                ..*old(self)
            }),
    {
        if self.doc_scroll_offset > 0 {
            self.doc_scroll_offset = self.doc_scroll_offset - 1;
        }
    }

    /// Takes `history` as the list of connection strings used before, the
    /// cursor on its first.
    pub fn set_connection_history(&mut self, history: ConnectionHistory)
        requires
            history.wf(),
        ensures
            *final(self) == (AppState {
                connection_history: history,
                selected_history_index: 0,
                ..*old(self)
            }),
            old(self).wf() ==> final(self).wf(),
    {
        self.connection_history = history;
        self.selected_history_index = 0;
    }
}

} // verus!
