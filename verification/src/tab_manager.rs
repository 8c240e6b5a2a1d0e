//! The open tabs: what can be done with them and what each operation leaves.

use crate::app_state::{tab_views, Tab, TabManager, TabManagerView, TabView};
use crate::tab_order::{
    copy_tab_map, has_key, insert_tab, keys_distinct, new_tab_map, tab_at, tab_count, tab_entries,
    tab_of, tab_under, tabs_of, with_entry, TabEntries,
};
use crate::trove::DEFAULT_NOTE_TITLE;
use vstd::prelude::*;

verus! {

/// The entries that come of storing each tab of `tabs` under its identifier,
/// first tab first.
pub open spec fn entries_of(tabs: Seq<TabView>) -> TabEntries
    decreases tabs.len(),
{
    if tabs.len() == 0 {
        Seq::empty()
    } else {
        with_entry(entries_of(tabs.drop_last()), tabs.last().id, tabs.last())
    }
}

/// The title under which the document `id` was last known to the tabs: that
/// of its tab, or the default title if it has none.
pub open spec fn known_title(entries: TabEntries, id: Seq<char>) -> Seq<char> {
    match tab_under(entries, id) {
        Some(tab) => tab.title,
        None => DEFAULT_NOTE_TITLE@,
    }
}

impl TabManagerView {
    /// Whether the active tab, if there is one, is among the open tabs.
    pub open spec fn active_is_open(self) -> bool {
        match self.current {
            Some(id) => has_key(self.entries, id),
            None => true,
        }
    }

    /// Whether every tab is stored under its own identifier and no
    /// identifier is stored twice.
    pub open spec fn is_consistent(self) -> bool {
        &&& keys_distinct(self.entries)
        &&& forall|i: int|
            0 <= i < self.entries.len() ==> (#[trigger] self.entries[i]).0 == self.entries[i].1.id
    }

    /// The tabs after `tab` was stored under its identifier. The active tab
    /// is the one it was.
    pub open spec fn with_tab(self, tab: TabView) -> TabManagerView {
        TabManagerView { entries: with_entry(self.entries, tab.id, tab), current: self.current }
    }

    /// The tabs after `tab` was opened: it is stored under its identifier and
    /// is the active one.
    pub open spec fn opened(self, tab: TabView) -> TabManagerView {
        TabManagerView { entries: with_entry(self.entries, tab.id, tab), current: Some(tab.id) }
    }
}

impl Default for TabManager {
    /// No tab is open and none is active.
    fn default() -> (tabs: Self)
        ensures
            tabs@.entries == Seq::<(Seq<char>, TabView)>::empty(),
            tabs@.current is None,
    {
        TabManager { tabs: new_tab_map(), current_tab_id: None }
    }
}

impl Clone for TabManager {
    fn clone(&self) -> (copy: Self)
        ensures
            copy@ == self@,
    {
        let current_tab_id = match &self.current_tab_id {
            Some(id) => Some(id.clone()),
            None => None,
        };
        TabManager { tabs: copy_tab_map(&self.tabs), current_tab_id }
    }
}

impl TabManager {
    /// The tabs of a persisted record: each tab is stored under its
    /// identifier in the order of the list, and `last_open_tab` is the active
    /// one, whether or not the list holds it.
    pub fn from_tabs(active_tabs: &Vec<Tab>, last_open_tab: String) -> (tabs: Self)
        ensures
            tabs@.entries == entries_of(tab_views(active_tabs@)),
            tabs@.current == Some(last_open_tab@),
    {
        let mut map = new_tab_map();
        let mut done: usize = 0;
        while done < active_tabs.len()
            invariant
                done <= active_tabs.len(),
                tab_entries(map) == entries_of(tab_views(active_tabs@).take(done as int)),
            decreases active_tabs.len() - done,
        {
            let tab = active_tabs[done].clone();
            proof {
                let all = tab_views(active_tabs@);
                assert(all.take(done + 1).drop_last() == all.take(done as int));
                assert(all.take(done + 1).last() == tab@);
            }
            insert_tab(&mut map, tab.id.clone(), tab);
            done = done + 1;
        }
        proof {
            let all = tab_views(active_tabs@);
            assert(all.take(done as int) == all);
        }
        TabManager { tabs: map, current_tab_id: Some(last_open_tab) }
    }

    /// Stores `tab` under its identifier. A tab that is new goes last; one
    /// whose identifier is already open keeps its place and takes the new
    /// title. The active tab is the one it was.
    pub fn put(&mut self, tab: Tab)
        ensures
            final(self)@ == old(self)@.with_tab(tab@),
    {
        insert_tab(&mut self.tabs, tab.id.clone(), tab);
    }

    /// Opens `tab`: stores it under its identifier, as [`TabManager::put`]
    /// does, and makes it the active tab.
    pub fn open(&mut self, tab: Tab)
        ensures
            final(self)@ == old(self)@.opened(tab@),
    {
        let id = tab.id.clone();
        self.put(tab);
        self.current_tab_id = Some(id);
    }

    /// The title under which the document `id` was last known to the tabs:
    /// that of its tab, or the default title if it has none.
    pub fn title_or_default(&self, id: &str) -> (title: String)
        ensures
            title@ == known_title(self@.entries, id@),
    {
        match tab_of(&self.tabs, id) {
            Some(tab) => tab.title.clone(),
            None => DEFAULT_NOTE_TITLE.to_owned(),
        }
    }

    /// The open tabs in display order.
    pub fn open_tabs(&self) -> (tabs: Vec<Tab>)
        ensures
            tab_views(tabs@) == tabs_of(self@.entries),
    {
        let count = tab_count(&self.tabs);
        let mut tabs: Vec<Tab> = Vec::new();
        let mut next: usize = 0;
        while next < count
            invariant
                next <= count,
                count == tab_entries(self.tabs).len(),
                tabs.len() == next,
                forall|i: int|
                    0 <= i < next ==> (#[trigger] tabs[i])@ == tab_entries(self.tabs)[i].1,
            decreases count - next,
        {
            match tab_at(&self.tabs, next) {
                Some(tab) => {
                    tabs.push(tab.clone());
                },
                None => {},
            }
            next = next + 1;
        }
        assert(tab_views(tabs@) =~= tabs_of(self@.entries));
        tabs
    }
}

} // verus!
