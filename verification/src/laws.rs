//! What holds of the session whatever is done with it.

use crate::app_state::{AppStateView, FileInfoView, TabManagerView, TabView, UserDataView};
use crate::editor::io::{after_save, save_plan};
use crate::file_name::file_stem;
use crate::loader::{
    adopted, documents_among, empty_session, found, fresh_session, is_rebuild, record_of,
};
use crate::tab_manager::{entries_of, known_title};
use crate::tab_order::{
    has_key, is_key_position, key_position, keys_distinct, keys_of, lemma_key_position, tab_under,
    tabs_of, with_entry, TabEntries,
};
use crate::trove::{default_document_path, path_in, DEFAULT_NOTE_TITLE};
use crate::workspace::{
    count_of, file_position, is_file_position, knows, lemma_file_position, recorded,
};
use vstd::prelude::*;

verus! {

/// Whether no two tabs of the list have the same identifier.
pub open spec fn ids_distinct(tabs: Seq<TabView>) -> bool {
    forall|i: int, j: int|
        0 <= i < j < tabs.len() ==> (#[trigger] tabs[i]).id != (#[trigger] tabs[j]).id
}

/// Whether no text occurs twice in the list.
pub open spec fn all_distinct(ids: Seq<Seq<char>>) -> bool {
    forall|i: int, j: int| 0 <= i < j < ids.len() ==> #[trigger] ids[i] != #[trigger] ids[j]
}

/// The first position that has a key is the only one that is first.
pub proof fn law_key_position_is_unique(entries: TabEntries, key: Seq<char>, at: int)
    requires
        is_key_position(entries, key, at),
    ensures
        has_key(entries, key),
        key_position(entries, key) == at,
{
    let chosen = key_position(entries, key);
    assert(is_key_position(entries, key, chosen));
    if chosen < at {
        assert(entries[chosen].0 != key);
    } else if at < chosen {
        assert(entries[at].0 != key);
    }
}

/// A tab with a new identifier is appended after the tabs that are open, and
/// is the active one.
pub proof fn law_new_tab_goes_last(tabs: TabManagerView, tab: TabView)
    requires
        !has_key(tabs.entries, tab.id),
    ensures
        tabs.opened(tab).entries == tabs.entries.push((tab.id, tab)),
        tabs.opened(tab).current == Some(tab.id),
{
}

/// A tab whose identifier is already open keeps its place: the keys are in
/// the order they were in, every other entry is as it was, the entry itself
/// holds the new tab, and the tab is the active one.
pub proof fn law_reopened_tab_keeps_place(tabs: TabManagerView, tab: TabView)
    requires
        has_key(tabs.entries, tab.id),
    ensures
        keys_of(tabs.opened(tab).entries) == keys_of(tabs.entries),
        tabs.opened(tab).entries[key_position(tabs.entries, tab.id)] == (tab.id, tab),
        forall|i: int|
            0 <= i < tabs.entries.len() && i != key_position(tabs.entries, tab.id) ==> (
            #[trigger] tabs.opened(tab).entries[i]) == tabs.entries[i],
        key_position(tabs.opened(tab).entries, tab.id) == key_position(tabs.entries, tab.id),
        tabs.opened(tab).current == Some(tab.id),
{
    lemma_key_position(tabs.entries, tab.id);
    let at = key_position(tabs.entries, tab.id);
    let after = tabs.opened(tab).entries;
    assert(keys_of(after) =~= keys_of(tabs.entries));
    assert forall|j: int| 0 <= j < at implies (#[trigger] after[j]).0 != tab.id by {
        assert(after[j] == tabs.entries[j]);
    }
    assert(is_key_position(after, tab.id, at));
    law_key_position_is_unique(after, tab.id, at);
}

/// After a tab was opened, the active tab is among the open tabs, and the
/// tab can be found under its identifier.
pub proof fn law_opened_tab_is_active_and_open(tabs: TabManagerView, tab: TabView)
    ensures
        tabs.opened(tab).active_is_open(),
        tab_under(tabs.opened(tab).entries, tab.id) == Some(tab),
{
    let after = tabs.opened(tab).entries;
    if has_key(tabs.entries, tab.id) {
        law_reopened_tab_keeps_place(tabs, tab);
        let at = key_position(tabs.entries, tab.id);
        lemma_key_position(tabs.entries, tab.id);
        assert(after[at].0 == tab.id);
    } else {
        let at = tabs.entries.len() as int;
        assert(after[at] == (tab.id, tab));
        assert forall|j: int| 0 <= j < at implies (#[trigger] after[j]).0 != tab.id by {
            assert(after[j] == tabs.entries[j]);
        }
        assert(is_key_position(after, tab.id, at));
        law_key_position_is_unique(after, tab.id, at);
    }
}

/// Storing a tab never makes a key occur twice.
pub proof fn law_keys_stay_distinct(entries: TabEntries, key: Seq<char>, tab: TabView)
    requires
        keys_distinct(entries),
    ensures
        keys_distinct(with_entry(entries, key, tab)),
{
    let after = with_entry(entries, key, tab);
    if has_key(entries, key) {
        lemma_key_position(entries, key);
        let at = key_position(entries, key);
        assert forall|i: int, j: int| 0 <= i < j < after.len() implies (#[trigger] after[i]).0 != (
        #[trigger] after[j]).0 by {
            assert(after[i].0 == entries[i].0);
            assert(after[j].0 == entries[j].0);
        }
    } else {
        assert forall|i: int, j: int| 0 <= i < j < after.len() implies (#[trigger] after[i]).0 != (
        #[trigger] after[j]).0 by {
            if j < entries.len() {
                assert(after[i] == entries[i]);
                assert(after[j] == entries[j]);
            } else {
                assert(after[i] == entries[i]);
            }
        }
    }
}

/// Tabs with distinct identifiers are stored one entry each, in their order,
/// each under its identifier.
pub proof fn law_entries_of_distinct_tabs(tabs: Seq<TabView>)
    requires
        ids_distinct(tabs),
    ensures
        entries_of(tabs) == Seq::new(tabs.len(), |i: int| (tabs[i].id, tabs[i])),
    decreases tabs.len(),
{
    let expected = Seq::new(tabs.len(), |i: int| (tabs[i].id, tabs[i]));
    if tabs.len() > 0 {
        let front = tabs.drop_last();
        law_entries_of_distinct_tabs(front);
        let before = entries_of(front);
        let last = tabs.last();
        if has_key(before, last.id) {
            let at = choose|i: int| 0 <= i < before.len() && (#[trigger] before[i]).0 == last.id;
            assert(tabs[at].id == last.id);
            assert(tabs[tabs.len() - 1].id == last.id);
        }
        assert(entries_of(tabs) =~= expected);
    } else {
        assert(entries_of(tabs) =~= expected);
    }
}

/// Round trip: a record whose tabs have distinct identifiers, adopted as a
/// session and written down again at once, is the record that was read: the
/// same tabs in the same order, the same active tab, the same files and
/// theme.
pub proof fn law_record_round_trip(record: UserDataView)
    requires
        ids_distinct(record.tabs),
    ensures
        record_of(adopted(record)) == Some(record),
{
    law_entries_of_distinct_tabs(record.tabs);
    assert(tabs_of(entries_of(record.tabs)) =~= record.tabs);
}

/// The active tab of an adopted record is among its tabs exactly if the
/// record's tabs hold it.
pub proof fn law_adopted_active_tab(record: UserDataView)
    ensures
        adopted(record).tabs.active_is_open() <==> exists|i: int|
            0 <= i < record.tabs.len() && (#[trigger] record.tabs[i]).id == record.last_open,
{
    lemma_keys_of_entries(record.tabs, record.last_open);
}

/// A key is among the entries made of a list of tabs exactly if a tab of the
/// list has it as its identifier.
pub proof fn lemma_keys_of_entries(tabs: Seq<TabView>, key: Seq<char>)
    ensures
        has_key(entries_of(tabs), key) <==> exists|i: int|
            0 <= i < tabs.len() && (#[trigger] tabs[i]).id == key,
    decreases tabs.len(),
{
    if tabs.len() > 0 {
        let front = tabs.drop_last();
        let last = tabs.last();
        lemma_keys_of_entries(front, key);
        lemma_has_key_after(entries_of(front), last.id, last, key);
        if has_key(entries_of(tabs), key) {
            if key == last.id {
                assert(tabs[tabs.len() - 1].id == key);
            } else {
                let i = choose|i: int| 0 <= i < front.len() && (#[trigger] front[i]).id == key;
                assert(tabs[i].id == key);
            }
        }
        if exists|i: int| 0 <= i < tabs.len() && (#[trigger] tabs[i]).id == key {
            let i = choose|i: int| 0 <= i < tabs.len() && (#[trigger] tabs[i]).id == key;
            if i < front.len() {
                assert(front[i].id == key);
            }
        }
    }
}

/// After a tab was stored under `key`, the keys are those that were there
/// and `key`.
pub proof fn lemma_has_key_after(
    entries: TabEntries,
    key: Seq<char>,
    tab: TabView,
    other: Seq<char>,
)
    ensures
        has_key(with_entry(entries, key, tab), other) <==> (other == key || has_key(
            entries,
            other,
        )),
{
    let after = with_entry(entries, key, tab);
    if has_key(entries, key) {
        lemma_key_position(entries, key);
        let at = key_position(entries, key);
        if has_key(after, other) {
            let i = choose|i: int| 0 <= i < after.len() && (#[trigger] after[i]).0 == other;
            assert(entries[i].0 == after[i].0);
        }
        if has_key(entries, other) {
            let i = choose|i: int| 0 <= i < entries.len() && (#[trigger] entries[i]).0 == other;
            assert(after[i].0 == other);
        }
        if other == key {
            assert(after[at].0 == key);
        }
    } else {
        if has_key(after, other) {
            let i = choose|i: int| 0 <= i < after.len() && (#[trigger] after[i]).0 == other;
            if i < entries.len() {
                assert(entries[i] == after[i]);
            }
        }
        if has_key(entries, other) {
            let i = choose|i: int| 0 <= i < entries.len() && (#[trigger] entries[i]).0 == other;
            assert(after[i] == entries[i]);
        }
        if other == key {
            assert(after[entries.len() as int].0 == key);
        }
    }
}

/// What a rebuild leaves whatever the identifiers are: one file for each
/// document, in the order of the listing, with the stem of the document's
/// name as its title and the document's path; no cached document; the
/// built-in theme; and, where there is a document, the first identifier as
/// the active tab, which is among the open tabs.
pub proof fn law_rebuild_keeps_every_document(
    dir: Seq<char>,
    documents: Seq<Seq<char>>,
    ids: Seq<Seq<char>>,
)
    requires
        ids.len() == documents.len(),
    ensures
        found(dir, documents, ids).workspace.files == Seq::new(
            documents.len(),
            |i: int|
                FileInfoView {
                    id: ids[i],
                    title: file_stem(documents[i]),
                    path: path_in(dir, documents[i]),
                },
        ),
        found(dir, documents, ids).workspace.documents == empty_session().workspace.documents,
        found(dir, documents, ids).workspace.theme == Seq::<char>::empty(),
        found(dir, documents, ids).tabs.entries.len() <= documents.len(),
        forall|id: Seq<char>|
            has_key(found(dir, documents, ids).tabs.entries, id) <==> ids.contains(id),
        found(dir, documents, ids).tabs.current == if documents.len() == 0 {
            None
        } else {
            Some(ids[0])
        },
        found(dir, documents, ids).tabs.active_is_open(),
    decreases documents.len(),
{
    let state = found(dir, documents, ids);
    let files = Seq::new(
        documents.len(),
        |i: int|
            FileInfoView {
                id: ids[i],
                title: file_stem(documents[i]),
                path: path_in(dir, documents[i]),
            },
    );
    if documents.len() == 0 {
        assert(state.workspace.files =~= files);
        assert forall|id: Seq<char>| has_key(state.tabs.entries, id) <==> ids.contains(id) by {
            if ids.contains(id) {
                let i = choose|i: int| 0 <= i < ids.len() && ids[i] == id;
            }
        }
    } else {
        let front = documents.drop_last();
        let front_ids = ids.drop_last();
        law_rebuild_keeps_every_document(dir, front, front_ids);
        let before = found(dir, front, front_ids);
        let tab = TabView { id: ids.last(), title: file_stem(documents.last()) };
        assert(state.workspace.files =~= files);
        if has_key(before.tabs.entries, ids.last()) {
            lemma_key_position(before.tabs.entries, ids.last());
        }
        assert forall|id: Seq<char>| has_key(state.tabs.entries, id) <==> ids.contains(id) by {
            lemma_has_key_after(before.tabs.entries, ids.last(), tab, id);
            if ids.contains(id) {
                let i = choose|i: int| 0 <= i < ids.len() && ids[i] == id;
                if i < front_ids.len() {
                    assert(front_ids[i] == id);
                    assert(front_ids.contains(id));
                }
            }
            if front_ids.contains(id) {
                let i = choose|i: int| 0 <= i < front_ids.len() && front_ids[i] == id;
                assert(ids[i] == id);
            }
            if id == ids.last() {
                assert(ids[ids.len() - 1] == id);
            }
        }
        if front.len() > 0 {
            assert(front_ids[0] == ids[0]);
        }
        assert(ids.contains(ids[0]));
    }
}

/// Recovery: where the new identifiers are distinct, a rebuild from a
/// listing with documents leaves exactly one tab for each document, in the
/// order of the listing, under its identifier and titled with the stem of the
/// document's name; and the first of them is the active tab.
pub proof fn law_rebuild_opens_every_document(
    dir: Seq<char>,
    documents: Seq<Seq<char>>,
    ids: Seq<Seq<char>>,
)
    requires
        ids.len() == documents.len(),
        all_distinct(ids),
    ensures
        found(dir, documents, ids).tabs.entries == Seq::new(
            documents.len(),
            |i: int| (ids[i], TabView { id: ids[i], title: file_stem(documents[i]) }),
        ),
        documents.len() > 0 ==> found(dir, documents, ids).tabs.current == Some(ids[0]),
        keys_distinct(found(dir, documents, ids).tabs.entries),
    decreases documents.len(),
{
    let state = found(dir, documents, ids);
    let entries = Seq::new(
        documents.len(),
        |i: int| (ids[i], TabView { id: ids[i], title: file_stem(documents[i]) }),
    );
    law_rebuild_keeps_every_document(dir, documents, ids);
    if documents.len() == 0 {
        assert(state.tabs.entries =~= entries);
    } else {
        let front = documents.drop_last();
        let front_ids = ids.drop_last();
        law_rebuild_opens_every_document(dir, front, front_ids);
        let before = found(dir, front, front_ids);
        if has_key(before.tabs.entries, ids.last()) {
            let i = choose|i: int|
                0 <= i < before.tabs.entries.len() && (#[trigger] before.tabs.entries[i]).0
                    == ids.last();
            assert(ids[i] == ids[ids.len() - 1]);
        }
        assert(state.tabs.entries =~= entries);
    }
}

/// Bootstrap: a session rebuilt from a listing without documents holds
/// exactly one tab, with the default title, which is the active tab, and
/// exactly one file, at the default path.
pub proof fn law_fresh_session_has_one_tab(dir: Seq<char>, id: Seq<char>)
    ensures
        fresh_session(dir, id).tabs.entries == seq![
            (id, TabView { id: id, title: DEFAULT_NOTE_TITLE@ }),
        ],
        fresh_session(dir, id).tabs.current == Some(id),
        fresh_session(dir, id).tabs.active_is_open(),
        fresh_session(dir, id).workspace.files == seq![
            FileInfoView { id: id, title: DEFAULT_NOTE_TITLE@, path: default_document_path(dir) },
        ],
{
    let tab = TabView { id: id, title: DEFAULT_NOTE_TITLE@ };
    let entries = fresh_session(dir, id).tabs.entries;
    assert(!has_key(Seq::<(Seq<char>, TabView)>::empty(), id));
    assert(entries =~= seq![(id, tab)]);
    assert(entries[0].0 == id);
    assert(fresh_session(dir, id).workspace.files =~= seq![
        FileInfoView { id: id, title: DEFAULT_NOTE_TITLE@, path: default_document_path(dir) },
    ]);
}

/// After a save the files hold the document, and the first file that holds
/// it bears the title that was saved. The path of a file that was already
/// there is the one it had.
pub proof fn law_save_records_title(
    files: Seq<FileInfoView>,
    id: Seq<char>,
    title: Seq<char>,
    path: Seq<char>,
)
    ensures
        knows(recorded(files, id, title, path), id),
        recorded(files, id, title, path)[file_position(recorded(files, id, title, path), id)].title
            == title,
        knows(files, id) ==> file_position(recorded(files, id, title, path), id) == file_position(
            files,
            id,
        ) && recorded(files, id, title, path)[file_position(files, id)].path == files[file_position(
            files,
            id,
        )].path,
        !knows(files, id) ==> file_position(recorded(files, id, title, path), id) == files.len()
            && recorded(files, id, title, path)[files.len() as int].path == path,
{
    let after = recorded(files, id, title, path);
    if knows(files, id) {
        lemma_first_file(files, id);
        let at = file_position(files, id);
        assert forall|j: int| 0 <= j < at implies (#[trigger] after[j]).id != id by {
            assert(after[j] == files[j]);
        }
        assert(is_file_position(after, id, at));
        lemma_file_position(after, id, at);
    } else {
        let at = files.len() as int;
        assert forall|j: int| 0 <= j < at implies (#[trigger] after[j]).id != id by {
            assert(after[j] == files[j]);
        }
        assert(after[at].id == id);
        assert(is_file_position(after, id, at));
        lemma_file_position(after, id, at);
    }
}

/// Idempotence: a save that is repeated changes nothing. The files after the
/// second save are the files after the first; the document is held by as
/// many files as before, and by exactly one if none held it.
pub proof fn law_save_twice_is_save_once(
    files: Seq<FileInfoView>,
    id: Seq<char>,
    title: Seq<char>,
    path: Seq<char>,
)
    ensures
        recorded(recorded(files, id, title, path), id, title, path) == recorded(
            files,
            id,
            title,
            path,
        ),
        recorded(files, id, title, path).len() == if knows(files, id) {
            files.len()
        } else {
            files.len() + 1
        },
        count_of(recorded(files, id, title, path), id) == if knows(files, id) {
            count_of(files, id)
        } else {
            1
        },
{
    let after = recorded(files, id, title, path);
    law_save_records_title(files, id, title, path);
    let at = file_position(after, id);
    assert(is_file_position(after, id, at)) by {
        lemma_first_file(after, id);
    }
    assert(recorded(after, id, title, path) =~= after);
    if knows(files, id) {
        lemma_first_file(files, id);
        lemma_count_after_update(files, after, id);
    } else {
        lemma_count_of_unknown(files, id);
        assert(after.drop_last() =~= files);
    }
}

/// Idempotence of a whole save: saving the same document a second time
/// leaves the session as the first save left it, and gives the same plan.
pub proof fn law_save_is_idempotent(
    state: AppStateView,
    dir: Seq<char>,
    windows: bool,
    id: Seq<char>,
    title: Seq<char>,
)
    ensures
        after_save(after_save(state, dir, windows, id, title), dir, windows, id, title)
            == after_save(state, dir, windows, id, title),
        after_save(state, dir, windows, id, title).tabs == state.tabs,
        save_plan(
            dir,
            windows,
            title,
            known_title(after_save(state, dir, windows, id, title).tabs.entries, id),
        ) == save_plan(dir, windows, title, known_title(state.tabs.entries, id)),
{
    law_save_twice_is_save_once(
        state.workspace.files,
        id,
        title,
        crate::trove::document_path(dir, windows, title),
    );
}

/// A document that some file holds has a first file that holds it.
pub proof fn lemma_first_file(files: Seq<FileInfoView>, id: Seq<char>)
    requires
        knows(files, id),
    ensures
        is_file_position(files, id, file_position(files, id)),
{
    let some = choose|i: int| 0 <= i < files.len() && (#[trigger] files[i]).id == id;
    lemma_first_file_before(files, id, some);
}

proof fn lemma_first_file_before(files: Seq<FileInfoView>, id: Seq<char>, bound: int)
    requires
        0 <= bound < files.len(),
        files[bound].id == id,
    ensures
        exists|i: int| is_file_position(files, id, i),
    decreases bound,
{
    if exists|j: int| 0 <= j < bound && (#[trigger] files[j]).id == id {
        let j = choose|j: int| 0 <= j < bound && (#[trigger] files[j]).id == id;
        lemma_first_file_before(files, id, j);
    } else {
        assert(is_file_position(files, id, bound));
    }
}

/// A document that no file holds is counted zero times.
proof fn lemma_count_of_unknown(files: Seq<FileInfoView>, id: Seq<char>)
    requires
        !knows(files, id),
    ensures
        count_of(files, id) == 0,
    decreases files.len(),
{
    if files.len() > 0 {
        assert(files[files.len() - 1].id != id);
        assert forall|i: int| 0 <= i < files.drop_last().len() implies (
        #[trigger] files.drop_last()[i]).id != id by {
            assert(files[i].id != id);
        }
        lemma_count_of_unknown(files.drop_last(), id);
    }
}

/// Two lists whose files hold the same documents, position by position,
/// count each document alike.
proof fn lemma_count_after_update(
    files: Seq<FileInfoView>,
    after: Seq<FileInfoView>,
    id: Seq<char>,
)
    requires
        files.len() == after.len(),
        forall|i: int| 0 <= i < files.len() ==> (#[trigger] files[i]).id == after[i].id,
    ensures
        count_of(files, id) == count_of(after, id),
    decreases files.len(),
{
    if files.len() > 0 {
        assert(files[files.len() - 1].id == after[files.len() - 1].id);
        assert forall|i: int| 0 <= i < files.drop_last().len() implies (
        #[trigger] files.drop_last()[i]).id == after.drop_last()[i].id by {
            assert(files[i].id == after[i].id);
        }
        lemma_count_after_update(files.drop_last(), after.drop_last(), id);
    }
}

/// Opening a tab keeps the tabs consistent: every tab is still stored under
/// its own identifier, and no identifier twice.
pub proof fn law_open_keeps_tabs_consistent(tabs: TabManagerView, tab: TabView)
    requires
        tabs.is_consistent(),
    ensures
        tabs.opened(tab).is_consistent(),
        tabs.with_tab(tab).is_consistent(),
{
    law_keys_stay_distinct(tabs.entries, tab.id, tab);
    let after = with_entry(tabs.entries, tab.id, tab);
    if has_key(tabs.entries, tab.id) {
        lemma_key_position(tabs.entries, tab.id);
    }
    assert forall|i: int| 0 <= i < after.len() implies (#[trigger] after[i]).0 == after[i].1.id by {
        if i < tabs.entries.len() && !(has_key(tabs.entries, tab.id) && i == key_position(
            tabs.entries,
            tab.id,
        )) {
            assert(after[i] == tabs.entries[i]);
        }
    }
}

/// The tabs of an adopted record are consistent, whatever the record holds.
pub proof fn law_adopted_tabs_are_consistent(record: UserDataView)
    ensures
        adopted(record).tabs.is_consistent(),
{
    lemma_entries_of_consistent(record.tabs);
}

/// The entries made of a list of tabs hold every tab under its own
/// identifier, and no identifier twice.
pub proof fn lemma_entries_of_consistent(tabs: Seq<TabView>)
    ensures
        (TabManagerView { entries: entries_of(tabs), current: None }).is_consistent(),
    decreases tabs.len(),
{
    if tabs.len() > 0 {
        lemma_entries_of_consistent(tabs.drop_last());
        law_open_keeps_tabs_consistent(
            TabManagerView { entries: entries_of(tabs.drop_last()), current: None },
            tabs.last(),
        );
    }
}

/// The tabs of a rebuilt session are consistent, whatever the identifiers
/// are.
pub proof fn law_rebuilt_tabs_are_consistent(
    dir: Seq<char>,
    documents: Seq<Seq<char>>,
    ids: Seq<Seq<char>>,
)
    ensures
        found(dir, documents, ids).tabs.is_consistent(),
    decreases documents.len(),
{
    if documents.len() > 0 {
        law_rebuilt_tabs_are_consistent(dir, documents.drop_last(), ids.drop_last());
        law_open_keeps_tabs_consistent(
            found(dir, documents.drop_last(), ids.drop_last()).tabs,
            TabView { id: ids.last(), title: file_stem(documents.last()) },
        );
    }
}

/// Recovery: a session rebuilt from a listing with `M` documents, where the
/// new identifiers are distinct, has exactly `M` tabs, titled in the order of
/// the listing with the stems of the documents' names; its active tab is the
/// first of them; nothing is to be created.
pub proof fn law_recovery(
    state: AppStateView,
    create_file: Option<Seq<char>>,
    dir: Seq<char>,
    names: Seq<Seq<char>>,
    ids: Seq<Seq<char>>,
)
    requires
        is_rebuild(state, create_file, dir, names, ids),
        documents_among(names).len() > 0,
        all_distinct(ids),
    ensures
        state.tabs.entries.len() == documents_among(names).len(),
        forall|i: int|
            0 <= i < state.tabs.entries.len() ==> (#[trigger] state.tabs.entries[i]).1.title
                == file_stem(documents_among(names)[i]),
        state.tabs.current == Some(state.tabs.entries[0].0),
        state.tabs.active_is_open(),
        state.tabs.is_consistent(),
        create_file is None,
{
    let documents = documents_among(names);
    law_rebuild_opens_every_document(dir, documents, ids);
    law_rebuild_keeps_every_document(dir, documents, ids);
    law_rebuilt_tabs_are_consistent(dir, documents, ids);
}

/// Bootstrap: a session rebuilt from a listing without documents has exactly
/// one tab, with the default title, which is the active tab; its one file
/// lies at the default path, and that is the file to be created.
pub proof fn law_bootstrap(
    state: AppStateView,
    create_file: Option<Seq<char>>,
    dir: Seq<char>,
    names: Seq<Seq<char>>,
    ids: Seq<Seq<char>>,
)
    requires
        is_rebuild(state, create_file, dir, names, ids),
        documents_among(names).len() == 0,
    ensures
        state.tabs.entries.len() == 1,
        state.tabs.entries[0].1.title == DEFAULT_NOTE_TITLE@,
        state.tabs.current == Some(state.tabs.entries[0].0),
        state.tabs.active_is_open(),
        state.workspace.files.len() == 1,
        state.workspace.files[0].path == default_document_path(dir),
        create_file == Some(default_document_path(dir)),
{
    law_fresh_session_has_one_tab(dir, ids[0]);
}

} // verus!
