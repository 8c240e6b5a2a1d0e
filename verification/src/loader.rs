//! Start-up: the session is taken from the persisted record, or, where there
//! is none that can be used, rebuilt from the documents in the trove.

use crate::app_state::{
    copy_files, AppStateInner, AppStateView, FileInfo, FileInfoView, FileManager,
    FileManagerView, Tab, TabManager, TabManagerView, TabView, UserData, UserDataView,
};
use crate::command_registry::{CommandItem, CommandRegistry};
use crate::file_name::file_stem;
use crate::tab_manager::entries_of;
use crate::tab_order::tabs_of;
use crate::trove::{
    default_document_path, document_title, is_document_name, path_in, Trove, DEFAULT_NOTE_TITLE,
};
use vstd::prelude::*;

verus! {

/// What was found where the persisted record is kept.
#[derive(Debug)]
pub enum StoredRecord {
    /// There is no record.
    Absent,
    /// There is a record, but it could not be read.
    Unreadable,
    /// The record was read and is not a session.
    Corrupt,
    /// The record was read and holds this session.
    Parsed(UserData),
}

/// What start-up arrived at, and what it leaves to be done on disk.
#[verifier::reject_recursive_types(A)]
pub struct LoadOutcome<A> {
    /// The session.
    pub state: AppStateInner<A>,
    /// Whether the record is to be deleted, so that it is not read again.
    pub discard_record: bool,
    /// The path at which an empty document is to be created, if the session
    /// holds a tab for a document that does not exist yet.
    pub create_file: Option<String>,
}

/// The text of each name of a list.
pub open spec fn texts(names: Seq<String>) -> Seq<Seq<char>> {
    Seq::new(names.len(), |i: int| names[i]@)
}

/// The text of a path, if there is one.
pub open spec fn path_text(path: Option<String>) -> Option<Seq<char>> {
    match path {
        Some(path) => Some(path@),
        None => None,
    }
}

/// Those of the names that are names of documents, in their order.
pub open spec fn documents_among(names: Seq<Seq<char>>) -> Seq<Seq<char>> {
    names.filter(|name: Seq<char>| is_document_name(name))
}

/// The session in which no tab is open and no file is known.
pub open spec fn empty_session() -> AppStateView {
    AppStateView {
        tabs: TabManagerView { entries: Seq::empty(), current: None },
        workspace: FileManagerView {
            documents: Map::empty(),
            files: Seq::empty(),
            theme: Seq::empty(),
        },
    }
}

/// The session that a persisted record stands for: its tabs in their order,
/// each under its identifier, its active tab, its files and its theme.
pub open spec fn adopted(record: UserDataView) -> AppStateView {
    AppStateView {
        tabs: TabManagerView { entries: entries_of(record.tabs), current: Some(record.last_open) },
        workspace: FileManagerView {
            documents: Map::empty(),
            files: record.files,
            theme: record.theme,
        },
    }
}

/// The record that stands for a session, where a tab is active.
pub open spec fn record_of(state: AppStateView) -> Option<UserDataView> {
    match state.tabs.current {
        Some(id) => Some(
            UserDataView {
                tabs: tabs_of(state.tabs.entries),
                last_open: id,
                files: state.workspace.files,
                theme: state.workspace.theme,
            },
        ),
        None => None,
    }
}

impl AppStateView {
    /// The session after the document `id`, titled `title` and kept at
    /// `path`, was added: it has a tab and a file, and is the active tab if
    /// none was active.
    pub open spec fn with_file(
        self,
        id: Seq<char>,
        title: Seq<char>,
        path: Seq<char>,
    ) -> AppStateView {
        let tabs = self.tabs.with_tab(TabView { id: id, title: title });
        AppStateView {
            tabs: TabManagerView {
                entries: tabs.entries,
                current: match tabs.current {
                    Some(active) => Some(active),
                    None => Some(id),
                },
            },
            workspace: FileManagerView {
                documents: self.workspace.documents,
                files: self.workspace.files.push(FileInfoView { id: id, title: title, path: path }),
                theme: self.workspace.theme,
            },
        }
    }
}

/// The session that holds the documents named `documents`, found in the
/// directory `dir` in this order and given the identifiers `ids` in the same
/// order. A document's title is the stem of its name.
pub open spec fn found(
    dir: Seq<char>,
    documents: Seq<Seq<char>>,
    ids: Seq<Seq<char>>,
) -> AppStateView
    decreases documents.len(),
{
    if documents.len() == 0 {
        empty_session()
    } else {
        found(dir, documents.drop_last(), ids.drop_last()).with_file(
            ids.last(),
            file_stem(documents.last()),
            path_in(dir, documents.last()),
        )
    }
}

/// The session that holds one document, not yet written, with the default
/// title.
pub open spec fn fresh_session(dir: Seq<char>, id: Seq<char>) -> AppStateView {
    empty_session().with_file(id, DEFAULT_NOTE_TITLE@, default_document_path(dir))
}

/// Whether `state` and `create_file` are what a rebuild arrives at in the
/// directory `dir`, listed as `names`, when the new identifiers are `ids`.
///
/// If the directory holds documents, each gets a tab and a file, the first is
/// active, and nothing is to be created. If it holds none, the session holds
/// one document with the default title, which is to be created.
pub open spec fn is_rebuild(
    state: AppStateView,
    create_file: Option<Seq<char>>,
    dir: Seq<char>,
    names: Seq<Seq<char>>,
    ids: Seq<Seq<char>>,
) -> bool {
    let documents = documents_among(names);
    if documents.len() == 0 {
        &&& ids.len() == 1
        &&& state == fresh_session(dir, ids[0])
        &&& create_file == Some(default_document_path(dir))
    } else {
        &&& ids.len() == documents.len()
        &&& state == found(dir, documents, ids)
        &&& create_file is None
    }
}

/// Whether the last name of a listing is among its documents is decided by
/// that name alone.
pub proof fn lemma_documents_among_last(names: Seq<Seq<char>>)
    requires
        names.len() > 0,
    ensures
        documents_among(names) == if is_document_name(names.last()) {
            documents_among(names.drop_last()).push(names.last())
        } else {
            documents_among(names.drop_last())
        },
{
    reveal(Seq::filter);
}

/// `Uuid::new_v4`, written in the hyphenated form: an identifier made by
/// chance. Nothing is claimed of it; in particular two calls may give the
/// same one, however unlikely that is. The call takes its randomness from the
/// operating system and stops the program if the system has none to give.
#[verifier::external_body]
fn fresh_id() -> (id: String) {
    uuid::Uuid::new_v4().to_string()
}

impl<A> Default for AppStateInner<A> {
    /// The session in which no tab is open, no file is known and no command
    /// is registered.
    fn default() -> (state: Self)
        ensures
            state@ == empty_session(),
            state.command_registry@ == Map::<Seq<char>, CommandItem<A>>::empty(),
    {
        AppStateInner {
            tab_switcher: TabManager::default(),
            command_registry: CommandRegistry::default(),
            workspace: FileManager::default(),
        }
    }
}

impl StoredRecord {
    /// Whether start-up has to look at the trove: it has unless the record
    /// holds a session.
    pub fn wants_listing(&self) -> (wanted: bool)
        ensures
            wanted == !(self is Parsed),
    {
        match self {
            StoredRecord::Parsed(_) => false,
            _ => true,
        }
    }
}

impl<A> AppStateInner<A> {
    /// The session that a persisted record stands for, with no command
    /// registered. The record is taken as it is: its active tab need not be
    /// among its tabs, and of two tabs with one identifier the first decides
    /// the place and the last the title.
    pub fn from_user_data(user_data: UserData) -> (state: Self)
        ensures
            state@ == adopted(user_data@),
            state.command_registry@ == Map::<Seq<char>, CommandItem<A>>::empty(),
    {
        let tab_switcher = TabManager::from_tabs(&user_data.active_tabs, user_data.last_open_tab);
        let workspace = FileManager::with_files(user_data.recent_files, user_data.current_theme);
        AppStateInner { tab_switcher, command_registry: CommandRegistry::default(), workspace }
    }

    /// The record that stands for the session: its tabs in display order, its
    /// active tab, its files and its theme. There is none while no tab is
    /// active.
    pub fn to_user_data(&self) -> (record: Option<UserData>)
        ensures
            match record {
                Some(record) => record_of(self@) == Some(record@),
                None => record_of(self@) is None,
            },
    {
        match &self.tab_switcher.current_tab_id {
            Some(id) => {
                let record = UserData {
                    active_tabs: self.tab_switcher.open_tabs(),
                    last_open_tab: id.clone(),
                    recent_files: copy_files(&self.workspace.recent_files),
                    current_theme: self.workspace.current_theme.clone(),
                };
                Some(record)
            },
            None => None,
        }
    }

    /// Adds the document `id`, titled `title` and kept at `path`: it gets a
    /// tab and a file, and becomes the active tab if none was active.
    pub fn add_file(&mut self, id: String, title: String, path: String)
        ensures
            final(self)@ == old(self)@.with_file(id@, title@, path@),
            final(self).command_registry == old(self).command_registry,
    {
        self.tab_switcher.put(Tab { id: id.clone(), title: title.clone() });
        self.workspace.recent_files.push(FileInfo { id: id.clone(), title, path });
        if self.tab_switcher.current_tab_id.is_none() {
            self.tab_switcher.current_tab_id = Some(id);
        }
        assert(self@.workspace.files =~= old(self)@.workspace.files.push(
            FileInfoView { id: id@, title: title@, path: path@ },
        ));
    }

    /// Rebuilds the session from the trove, whose directory was listed as
    /// `file_names`. Each document in the listing gets a new identifier, a
    /// tab and a file; the first one is the active tab. If the listing holds
    /// no document, the session gets one with the default title, and the
    /// second result is the path at which it is to be created.
    ///
    /// The identifiers are made by chance, so the contract speaks of them as
    /// some list `ids`. No command is registered.
    pub fn rebuild(trove: &Trove, file_names: &Vec<String>) -> (rebuilt: (Self, Option<String>))
        ensures
            exists|ids: Seq<Seq<char>>| #[trigger]
                is_rebuild(rebuilt.0@, path_text(rebuilt.1), trove.dir@, texts(file_names@), ids),
            rebuilt.0.command_registry@ == Map::<Seq<char>, CommandItem<A>>::empty(),
    {
        let mut state: AppStateInner<A> = AppStateInner::default();
        let ghost mut ids: Seq<Seq<char>> = Seq::empty();
        let ghost names = texts(file_names@);
        let mut next: usize = 0;
        let mut any: bool = false;
        while next < file_names.len()
            invariant
                next <= file_names.len(),
                names == texts(file_names@),
                ids.len() == documents_among(names.take(next as int)).len(),
                state@ == found(trove.dir@, documents_among(names.take(next as int)), ids),
                state.command_registry@ == Map::<Seq<char>, CommandItem<A>>::empty(),
                any == (ids.len() > 0),
            decreases file_names.len() - next,
        {
            let name = file_names[next].as_str();
            proof {
                assert(names.take(next + 1).drop_last() == names.take(next as int));
                assert(names.take(next + 1).last() == name@);
                lemma_documents_among_last(names.take(next + 1));
            }
            match document_title(name) {
                Some(title) => {
                    let id = fresh_id();
                    let path = trove.path_of(name);
                    proof {
                        let before = documents_among(names.take(next as int));
                        let now = documents_among(names.take(next + 1));
                        assert(now == before.push(name@));
                        assert(now.drop_last() == before);
                        assert(ids.push(id@).drop_last() == ids);
                        ids = ids.push(id@);
                    }
                    state.add_file(id, title, path);
                    any = true;
                },
                None => {},
            }
            next = next + 1;
        }
        proof {
            assert(names.take(next as int) == names);
        }
        if any {
            let rebuilt = (state, None);
            assert(is_rebuild(rebuilt.0@, path_text(rebuilt.1), trove.dir@, names, ids));
            rebuilt
        } else {
            let id = fresh_id();
            let path = trove.default_document_path();
            state.add_file(id.clone(), DEFAULT_NOTE_TITLE.to_owned(), path.clone());
            let rebuilt = (state, Some(path));
            assert(is_rebuild(rebuilt.0@, path_text(rebuilt.1), trove.dir@, names, seq![id@]));
            rebuilt
        }
    }

    /// Start-up. `record` is what was found where the persisted record is
    /// kept, `file_names` the listing of the trove's directory (looked at
    /// only if the record holds no session).
    ///
    /// A record that holds a session is adopted, and nothing is to be done
    /// on disk. Otherwise the session is rebuilt from the listing as
    /// [`AppStateInner::rebuild`] says; a record that was read and found
    /// corrupt is to be deleted, one that is absent or could not be read is
    /// left alone. Either way no command is registered yet.
    pub fn load(record: StoredRecord, trove: &Trove, file_names: &Vec<String>) -> (outcome:
        LoadOutcome<A>)
        ensures
            outcome.state.command_registry@ == Map::<Seq<char>, CommandItem<A>>::empty(),
            match record {
                StoredRecord::Parsed(user_data) => {
                    &&& outcome.state@ == adopted(user_data@)
                    &&& !outcome.discard_record
                    &&& outcome.create_file is None
                },
                _ => {
                    &&& outcome.discard_record == (record is Corrupt)
                    &&& exists|ids: Seq<Seq<char>>| #[trigger]
                        is_rebuild(
                            outcome.state@,
                            path_text(outcome.create_file),
                            trove.dir@,
                            texts(file_names@),
                            ids,
                        )
                },
            },
    {
        match record {
            StoredRecord::Parsed(user_data) => LoadOutcome {
                state: AppStateInner::from_user_data(user_data),
                discard_record: false,
                create_file: None,
            },
            StoredRecord::Corrupt => {
                let (state, create_file) = AppStateInner::rebuild(trove, file_names);
                LoadOutcome { state, discard_record: true, create_file }
            },
            _ => {
                let (state, create_file) = AppStateInner::rebuild(trove, file_names);
                LoadOutcome { state, discard_record: false, create_file }
            },
        }
    }
}

} // verus!
