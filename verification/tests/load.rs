use rhyolite_state::app_state::{
    copy_files, copy_tabs, AppStateInner, FileInfo, Tab, Theme, UserData,
};
use rhyolite_state::loader::StoredRecord;
use rhyolite_state::trove::Trove;

type Session = AppStateInner<u32>;

fn trove() -> Trove {
    Trove { dir: "/docs/trove".to_string(), windows_names: false }
}

fn tab(id: &str, title: &str) -> Tab {
    Tab { id: id.to_string(), title: title.to_string() }
}

fn file(id: &str, title: &str, path: &str) -> FileInfo {
    FileInfo { id: id.to_string(), title: title.to_string(), path: path.to_string() }
}

fn record() -> UserData {
    UserData {
        active_tabs: vec![tab("t2", "Second"), tab("t1", "First"), tab("t3", "Third")],
        last_open_tab: "t1".to_string(),
        recent_files: vec![
            file("t1", "First", "/docs/trove/First.md"),
            file("t9", "Closed", "/docs/trove/Closed.md"),
        ],
        current_theme: Theme { definition: "{\"name\":\"dusk\"}".to_string() },
    }
}

fn names(list: &[&str]) -> Vec<String> {
    list.iter().map(|name| name.to_string()).collect()
}

fn tabs(state: &Session) -> Vec<(String, String, String)> {
    state
        .tab_switcher
        .tabs
        .iter()
        .map(|(key, tab)| (key.clone(), tab.id.clone(), tab.title.clone()))
        .collect()
}

fn files(state: &Session) -> Vec<(String, String, String)> {
    state
        .workspace
        .recent_files
        .iter()
        .map(|f| (f.id.clone(), f.title.clone(), f.path.clone()))
        .collect()
}

fn triple(a: &str, b: &str, c: &str) -> (String, String, String) {
    (a.to_string(), b.to_string(), c.to_string())
}

#[test]
fn default_state_is_empty() {
    let state = Session::default();
    assert!(state.tab_switcher.tabs.is_empty());
    assert_eq!(state.tab_switcher.current_tab_id, None);
    assert!(state.workspace.recent_files.is_empty());
    assert!(state.workspace.documents.is_empty());
    assert_eq!(state.workspace.current_theme.definition, "");
}

#[test]
fn wants_listing_unless_record_is_parsed() {
    assert!(StoredRecord::Absent.wants_listing());
    assert!(StoredRecord::Unreadable.wants_listing());
    assert!(StoredRecord::Corrupt.wants_listing());
    assert!(!StoredRecord::Parsed(record()).wants_listing());
}

#[test]
fn from_user_data_adopts_record() {
    let state = Session::from_user_data(record());
    assert_eq!(
        tabs(&state),
        vec![
            triple("t2", "t2", "Second"),
            triple("t1", "t1", "First"),
            triple("t3", "t3", "Third"),
        ]
    );
    assert_eq!(state.tab_switcher.current_tab_id, Some("t1".to_string()));
    assert_eq!(
        files(&state),
        vec![
            triple("t1", "First", "/docs/trove/First.md"),
            triple("t9", "Closed", "/docs/trove/Closed.md"),
        ]
    );
    assert_eq!(state.workspace.current_theme.definition, "{\"name\":\"dusk\"}");
    assert!(state.workspace.documents.is_empty());
}

#[test]
fn record_round_trip() {
    let state = Session::from_user_data(record());
    let written = state.to_user_data().unwrap();
    let read = record();
    assert_eq!(written.active_tabs.len(), read.active_tabs.len());
    for (a, b) in written.active_tabs.iter().zip(read.active_tabs.iter()) {
        assert_eq!(a.id, b.id);
        assert_eq!(a.title, b.title);
    }
    assert_eq!(written.last_open_tab, read.last_open_tab);
    assert_eq!(written.recent_files.len(), read.recent_files.len());
    for (a, b) in written.recent_files.iter().zip(read.recent_files.iter()) {
        assert_eq!(a.id, b.id);
        assert_eq!(a.title, b.title);
        assert_eq!(a.path, b.path);
    }
    assert_eq!(written.current_theme.definition, read.current_theme.definition);
}

#[test]
fn record_round_trip_of_empty_tab_list() {
    let empty = UserData {
        active_tabs: vec![],
        last_open_tab: "t1".to_string(),
        recent_files: vec![],
        current_theme: Theme::default(),
    };
    let written = Session::from_user_data(empty).to_user_data().unwrap();
    assert!(written.active_tabs.is_empty());
    assert_eq!(written.last_open_tab, "t1");
    assert!(written.recent_files.is_empty());
}

#[test]
fn to_user_data_needs_active_tab() {
    assert!(Session::default().to_user_data().is_none());
}

#[test]
fn load_adopts_parsed_record() {
    let outcome =
        Session::load(StoredRecord::Parsed(record()), &trove(), &names(&["a.md", "b.md"]));
    assert!(!outcome.discard_record);
    assert_eq!(outcome.create_file, None);
    assert_eq!(
        tabs(&outcome.state),
        vec![
            triple("t2", "t2", "Second"),
            triple("t1", "t1", "First"),
            triple("t3", "t3", "Third"),
        ]
    );
    assert_eq!(outcome.state.tab_switcher.current_tab_id, Some("t1".to_string()));
    assert_eq!(outcome.state.workspace.recent_files.len(), 2);
}

#[test]
fn load_rebuilds_after_corrupt_record() {
    let listing = names(&["b.md", "notes.txt", "a.md", ".md", "x.y.md", "README", "c.MD"]);
    let outcome = Session::load(StoredRecord::Corrupt, &trove(), &listing);
    assert!(outcome.discard_record);
    assert_eq!(outcome.create_file, None);
    let state = outcome.state;
    let found = tabs(&state);
    assert_eq!(found.len(), 3);
    let titles: Vec<String> = found.iter().map(|t| t.2.clone()).collect();
    assert_eq!(titles, vec!["b".to_string(), "a".to_string(), "x.y".to_string()]);
    for entry in &found {
        assert_eq!(entry.0, entry.1);
        assert_eq!(entry.0.len(), 36);
    }
    assert_ne!(found[0].0, found[1].0);
    assert_ne!(found[0].0, found[2].0);
    assert_ne!(found[1].0, found[2].0);
    assert_eq!(state.tab_switcher.current_tab_id, Some(found[0].0.clone()));
    assert_eq!(
        files(&state),
        vec![
            triple(&found[0].0, "b", "/docs/trove/b.md"),
            triple(&found[1].0, "a", "/docs/trove/a.md"),
            triple(&found[2].0, "x.y", "/docs/trove/x.y.md"),
        ]
    );
    assert_eq!(state.workspace.current_theme.definition, "");
    assert!(state.workspace.documents.is_empty());
}

#[test]
fn load_rebuilds_without_record_and_keeps_nothing_to_delete() {
    let outcome = Session::load(StoredRecord::Absent, &trove(), &names(&["only.md"]));
    assert!(!outcome.discard_record);
    assert_eq!(outcome.create_file, None);
    assert_eq!(outcome.state.tab_switcher.tabs.len(), 1);
    assert_eq!(outcome.state.tab_switcher.tabs[0].title, "only");
}

#[test]
fn load_keeps_unreadable_record() {
    let outcome = Session::load(StoredRecord::Unreadable, &trove(), &names(&["only.md"]));
    assert!(!outcome.discard_record);
    assert_eq!(outcome.create_file, None);
    assert_eq!(outcome.state.tab_switcher.tabs.len(), 1);
}

#[test]
fn load_of_empty_trove_makes_default_note() {
    let outcome = Session::load(StoredRecord::Absent, &trove(), &names(&[]));
    assert!(!outcome.discard_record);
    assert_eq!(outcome.create_file, Some("/docs/trove/Untitled.md".to_string()));
    let state = outcome.state;
    let found = tabs(&state);
    assert_eq!(found.len(), 1);
    assert_eq!(found[0].0, found[0].1);
    assert_eq!(found[0].2, "Untitled");
    assert_eq!(state.tab_switcher.current_tab_id, Some(found[0].0.clone()));
    assert_eq!(files(&state), vec![triple(&found[0].0, "Untitled", "/docs/trove/Untitled.md")]);
}

#[test]
fn load_of_trove_without_documents_makes_default_note() {
    let listing = names(&["notes.txt", ".md", "README"]);
    let outcome = Session::load(StoredRecord::Corrupt, &trove(), &listing);
    assert!(outcome.discard_record);
    assert_eq!(outcome.create_file, Some("/docs/trove/Untitled.md".to_string()));
    assert_eq!(outcome.state.tab_switcher.tabs.len(), 1);
    assert_eq!(outcome.state.tab_switcher.tabs[0].title, "Untitled");
}

#[test]
fn rebuild_gives_each_document_its_own_identifier() {
    let listing: Vec<String> = (0..50).map(|i| format!("note{}.md", i)).collect();
    let (state, create_file) = Session::rebuild(&trove(), &listing);
    assert_eq!(create_file, None);
    assert_eq!(state.tab_switcher.tabs.len(), 50);
    assert_eq!(state.workspace.recent_files.len(), 50);
    for (i, (key, tab)) in state.tab_switcher.tabs.iter().enumerate() {
        assert_eq!(tab.title, format!("note{}", i));
        assert_eq!(&tab.id, key);
        assert_eq!(state.workspace.recent_files[i].id, *key);
    }
}

#[test]
fn two_rebuilds_give_different_identifiers() {
    let (first, _) = Session::rebuild(&trove(), &names(&["a.md"]));
    let (second, _) = Session::rebuild(&trove(), &names(&["a.md"]));
    assert_ne!(first.tab_switcher.current_tab_id, second.tab_switcher.current_tab_id);
}

#[test]
fn add_file_opens_tab_and_records_file() {
    let mut state = Session::default();
    state.add_file("1".to_string(), "one".to_string(), "/docs/one.md".to_string());
    state.add_file("2".to_string(), "two".to_string(), "/docs/two.md".to_string());
    assert_eq!(tabs(&state), vec![triple("1", "1", "one"), triple("2", "2", "two")]);
    assert_eq!(state.tab_switcher.current_tab_id, Some("1".to_string()));
    assert_eq!(
        files(&state),
        vec![triple("1", "one", "/docs/one.md"), triple("2", "two", "/docs/two.md")]
    );
}

#[test]
fn add_file_with_repeated_identifier_keeps_one_tab_and_both_files() {
    let mut state = Session::default();
    state.add_file("1".to_string(), "one".to_string(), "/docs/one.md".to_string());
    state.add_file("2".to_string(), "two".to_string(), "/docs/two.md".to_string());
    state.add_file("1".to_string(), "uno".to_string(), "/docs/uno.md".to_string());
    assert_eq!(tabs(&state), vec![triple("1", "1", "uno"), triple("2", "2", "two")]);
    assert_eq!(state.tab_switcher.current_tab_id, Some("1".to_string()));
    assert_eq!(state.workspace.recent_files.len(), 3);
}

#[test]
fn add_file_keeps_active_tab() {
    let mut state = Session::default();
    state.tab_switcher.current_tab_id = Some("elsewhere".to_string());
    state.add_file("1".to_string(), "one".to_string(), "/docs/one.md".to_string());
    assert_eq!(state.tab_switcher.current_tab_id, Some("elsewhere".to_string()));
}

#[test]
fn clone_of_record_holds_the_same_session() {
    let read = record();
    let copy = read.clone();
    assert_eq!(copy.active_tabs.len(), 3);
    assert_eq!(copy.active_tabs[0].id, "t2");
    assert_eq!(copy.active_tabs[0].title, "Second");
    assert_eq!(copy.active_tabs[2].id, "t3");
    assert_eq!(copy.last_open_tab, "t1");
    assert_eq!(copy.recent_files.len(), 2);
    assert_eq!(copy.recent_files[1].path, "/docs/trove/Closed.md");
    assert_eq!(copy.current_theme.definition, read.current_theme.definition);
}

#[test]
fn copies_of_lists_keep_order() {
    let tabs = copy_tabs(&vec![tab("b", "B"), tab("a", "A")]);
    assert_eq!(tabs.len(), 2);
    assert_eq!(tabs[0].id, "b");
    assert_eq!(tabs[1].title, "A");
    let files = copy_files(&vec![file("1", "one", "/x/one.md"), file("2", "two", "/x/two.md")]);
    assert_eq!(files.len(), 2);
    assert_eq!(files[0].path, "/x/one.md");
    assert_eq!(files[1].id, "2");
    assert!(copy_tabs(&vec![]).is_empty());
    assert!(copy_files(&vec![]).is_empty());
}
