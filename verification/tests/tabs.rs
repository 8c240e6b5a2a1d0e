use rhyolite_state::app_state::{Tab, TabManager};
use rhyolite_state::editor::tabs::TabCommands;

fn tab(id: &str, title: &str) -> Tab {
    Tab { id: id.to_string(), title: title.to_string() }
}

fn keys(tabs: &TabManager) -> Vec<String> {
    tabs.tabs.keys().cloned().collect()
}

fn titles(tabs: &TabManager) -> Vec<String> {
    tabs.tabs.values().map(|tab| tab.title.clone()).collect()
}

#[test]
fn default_tab_manager_is_empty() {
    let tabs = TabManager::default();
    assert!(tabs.tabs.is_empty());
    assert_eq!(tabs.current_tab_id, None);
    assert!(tabs.open_tabs().is_empty());
}

#[test]
fn load_tab_opens_first_tab() {
    let mut tabs = TabManager::default();
    let notify = TabCommands::load_tab(&mut tabs, Some(tab("a", "A")));
    assert!(notify);
    assert_eq!(keys(&tabs), vec!["a".to_string()]);
    assert_eq!(titles(&tabs), vec!["A".to_string()]);
    assert_eq!(tabs.current_tab_id, Some("a".to_string()));
}

#[test]
fn load_tab_appends_new_tab_after_existing() {
    let mut tabs = TabManager::default();
    TabCommands::load_tab(&mut tabs, Some(tab("a", "A")));
    TabCommands::load_tab(&mut tabs, Some(tab("b", "B")));
    let notify = TabCommands::load_tab(&mut tabs, Some(tab("x", "X")));
    assert!(notify);
    assert_eq!(keys(&tabs), vec!["a".to_string(), "b".to_string(), "x".to_string()]);
    assert_eq!(tabs.current_tab_id, Some("x".to_string()));
}

#[test]
fn load_tab_keeps_place_of_open_tab() {
    let mut tabs = TabManager::default();
    TabCommands::load_tab(&mut tabs, Some(tab("a", "A")));
    TabCommands::load_tab(&mut tabs, Some(tab("b", "B")));
    TabCommands::load_tab(&mut tabs, Some(tab("x", "X")));
    let notify = TabCommands::load_tab(&mut tabs, Some(tab("a", "A again")));
    assert!(notify);
    assert_eq!(keys(&tabs), vec!["a".to_string(), "b".to_string(), "x".to_string()]);
    assert_eq!(
        titles(&tabs),
        vec!["A again".to_string(), "B".to_string(), "X".to_string()]
    );
    assert_eq!(tabs.tabs.get_index_of("a"), Some(0));
    assert_eq!(tabs.current_tab_id, Some("a".to_string()));
}

#[test]
fn load_tab_without_payload_changes_nothing() {
    let mut tabs = TabManager::default();
    TabCommands::load_tab(&mut tabs, Some(tab("a", "A")));
    TabCommands::load_tab(&mut tabs, Some(tab("b", "B")));
    let notify = TabCommands::load_tab(&mut tabs, None);
    assert!(!notify);
    assert_eq!(keys(&tabs), vec!["a".to_string(), "b".to_string()]);
    assert_eq!(titles(&tabs), vec!["A".to_string(), "B".to_string()]);
    assert_eq!(tabs.current_tab_id, Some("b".to_string()));
}

#[test]
fn load_tab_without_payload_on_empty_tabs() {
    let mut tabs = TabManager::default();
    assert!(!TabCommands::load_tab(&mut tabs, None));
    assert!(tabs.tabs.is_empty());
    assert_eq!(tabs.current_tab_id, None);
}

#[test]
fn open_makes_tab_active() {
    let mut tabs = TabManager::default();
    tabs.open(tab("a", "A"));
    tabs.open(tab("b", "B"));
    assert_eq!(tabs.current_tab_id, Some("b".to_string()));
    tabs.open(tab("a", "A"));
    assert_eq!(tabs.current_tab_id, Some("a".to_string()));
    assert_eq!(tabs.tabs.len(), 2);
}

#[test]
fn title_or_default_reads_open_tab() {
    let mut tabs = TabManager::default();
    tabs.open(tab("a", "Alpha"));
    assert_eq!(tabs.title_or_default("a"), "Alpha");
}

#[test]
fn title_or_default_falls_back_for_unknown_tab() {
    let mut tabs = TabManager::default();
    tabs.open(tab("a", "Alpha"));
    assert_eq!(tabs.title_or_default("zzz"), "Untitled");
    assert_eq!(TabManager::default().title_or_default("a"), "Untitled");
}

#[test]
fn from_tabs_keeps_order_and_active_tab() {
    let list = vec![tab("3", "three"), tab("1", "one"), tab("2", "two")];
    let tabs = TabManager::from_tabs(&list, "1".to_string());
    assert_eq!(keys(&tabs), vec!["3".to_string(), "1".to_string(), "2".to_string()]);
    assert_eq!(
        titles(&tabs),
        vec!["three".to_string(), "one".to_string(), "two".to_string()]
    );
    assert_eq!(tabs.current_tab_id, Some("1".to_string()));
}

#[test]
fn from_tabs_with_repeated_id_keeps_first_place_and_last_title() {
    let list = vec![tab("a", "first"), tab("b", "B"), tab("a", "second")];
    let tabs = TabManager::from_tabs(&list, "b".to_string());
    assert_eq!(keys(&tabs), vec!["a".to_string(), "b".to_string()]);
    assert_eq!(titles(&tabs), vec!["second".to_string(), "B".to_string()]);
}

#[test]
fn from_tabs_takes_active_tab_as_it_is() {
    let list = vec![tab("a", "A")];
    let tabs = TabManager::from_tabs(&list, "gone".to_string());
    assert_eq!(tabs.current_tab_id, Some("gone".to_string()));
    assert!(tabs.tabs.get("gone").is_none());
}

#[test]
fn open_tabs_lists_tabs_in_display_order() {
    let mut tabs = TabManager::default();
    tabs.open(tab("b", "B"));
    tabs.open(tab("a", "A"));
    tabs.open(tab("b", "B2"));
    let listed = tabs.open_tabs();
    assert_eq!(listed.len(), 2);
    assert_eq!(listed[0].id, "b");
    assert_eq!(listed[0].title, "B2");
    assert_eq!(listed[1].id, "a");
    assert_eq!(listed[1].title, "A");
}

#[test]
fn clone_of_tab_manager_holds_the_same_tabs() {
    let mut tabs = TabManager::default();
    tabs.open(tab("a", "A"));
    tabs.open(tab("b", "B"));
    let copy = tabs.clone();
    tabs.open(tab("c", "C"));
    assert_eq!(keys(&copy), vec!["a".to_string(), "b".to_string()]);
    assert_eq!(titles(&copy), vec!["A".to_string(), "B".to_string()]);
    assert_eq!(copy.current_tab_id, Some("b".to_string()));
}

#[test]
fn clone_of_tab_is_equal() {
    let first = tab("a", "A");
    let copy = first.clone();
    assert_eq!(copy.id, "a");
    assert_eq!(copy.title, "A");
}

#[test]
fn put_stores_tab_and_keeps_active_tab() {
    let mut tabs = TabManager::default();
    tabs.put(tab("a", "A"));
    assert_eq!(keys(&tabs), vec!["a".to_string()]);
    assert_eq!(tabs.current_tab_id, None);
    tabs.open(tab("b", "B"));
    tabs.put(tab("a", "A2"));
    tabs.put(tab("c", "C"));
    assert_eq!(keys(&tabs), vec!["a".to_string(), "b".to_string(), "c".to_string()]);
    assert_eq!(titles(&tabs), vec!["A2".to_string(), "B".to_string(), "C".to_string()]);
    assert_eq!(tabs.current_tab_id, Some("b".to_string()));
}
