//! The data the session is made of.

use crate::command_registry::CommandRegistry;
use crate::tab_order::{tab_entries, TabEntries};
use indexmap::IndexMap;
use std::collections::HashMap;
use vstd::prelude::*;

verus! {

/// A document as the editor sends it: its identifier, its title and its
/// content in the editor's rich form.
#[derive(Debug)]
pub struct MarkdownFileData {
    pub id: String,
    pub title: String,
    pub content: String,
}

/// What a [`MarkdownFileData`] is in contracts.
pub struct MarkdownFileDataView {
    pub id: Seq<char>,
    pub title: Seq<char>,
    pub content: Seq<char>,
}

impl View for MarkdownFileData {
    type V = MarkdownFileDataView;

    open spec fn view(&self) -> MarkdownFileDataView {
        MarkdownFileDataView { id: self.id@, title: self.title@, content: self.content@ }
    }
}

impl Clone for MarkdownFileData {
    fn clone(&self) -> (copy: Self)
        ensures
            copy == *self,
    {
        MarkdownFileData {
            id: self.id.clone(),
            title: self.title.clone(),
            content: self.content.clone(),
        }
    }
}

/// An open editor slot: a unique identifier and the title shown for it.
#[derive(Debug)]
pub struct Tab {
    pub id: String,
    pub title: String,
}

/// What a [`Tab`] is in contracts: its identifier and title as text.
pub struct TabView {
    pub id: Seq<char>,
    pub title: Seq<char>,
}

impl View for Tab {
    type V = TabView;

    open spec fn view(&self) -> TabView {
        TabView { id: self.id@, title: self.title@ }
    }
}

impl Clone for Tab {
    fn clone(&self) -> (copy: Self)
        ensures
            copy == *self,
    {
        Tab { id: self.id.clone(), title: self.title.clone() }
    }
}

/// The colours in use. The library carries a theme from the persisted record
/// to the workspace and back without looking at it, so a theme is kept as the
/// text of its definition. The empty text stands for the built-in theme.
#[derive(Debug)]
pub struct Theme {
    pub definition: String,
}

impl View for Theme {
    type V = Seq<char>;

    open spec fn view(&self) -> Seq<char> {
        self.definition@
    }
}

impl Clone for Theme {
    fn clone(&self) -> (copy: Self)
        ensures
            copy == *self,
    {
        Theme { definition: self.definition.clone() }
    }
}

impl Default for Theme {
    fn default() -> (theme: Self)
        ensures
            theme@ == Seq::<char>::empty(),
    {
        Theme { definition: String::new() }
    }
}

/// A file the workspace knows: the identifier and title of the document it
/// holds, and where it lies.
#[derive(Debug)]
pub struct FileInfo {
    pub id: String,
    pub title: String,
    pub path: String,
}

/// What a [`FileInfo`] is in contracts.
pub struct FileInfoView {
    pub id: Seq<char>,
    pub title: Seq<char>,
    pub path: Seq<char>,
}

impl View for FileInfo {
    type V = FileInfoView;

    open spec fn view(&self) -> FileInfoView {
        FileInfoView { id: self.id@, title: self.title@, path: self.path@ }
    }
}

impl Clone for FileInfo {
    fn clone(&self) -> (copy: Self)
        ensures
            copy == *self,
    {
        FileInfo { id: self.id.clone(), title: self.title.clone(), path: self.path.clone() }
    }
}

/// A copy of a list of files.
pub fn copy_files(files: &Vec<FileInfo>) -> (copy: Vec<FileInfo>)
    ensures
        copy@ == files@,
{
    let mut copy: Vec<FileInfo> = Vec::new();
    let mut next: usize = 0;
    while next < files.len()
        invariant
            next <= files.len(),
            copy.len() == next,
            forall|i: int| 0 <= i < next ==> (#[trigger] copy[i]) == files[i],
        decreases files.len() - next,
    {
        copy.push(files[next].clone());
        next = next + 1;
    }
    assert(copy@ =~= files@);
    copy
}

/// A copy of a list of tabs.
pub fn copy_tabs(tabs: &Vec<Tab>) -> (copy: Vec<Tab>)
    ensures
        copy@ == tabs@,
{
    let mut copy: Vec<Tab> = Vec::new();
    let mut next: usize = 0;
    while next < tabs.len()
        invariant
            next <= tabs.len(),
            copy.len() == next,
            forall|i: int| 0 <= i < next ==> (#[trigger] copy[i]) == tabs[i],
        decreases tabs.len() - next,
    {
        copy.push(tabs[next].clone());
        next = next + 1;
    }
    assert(copy@ =~= tabs@);
    copy
}

/// The body of a document that is open in a tab, kept so that switching tabs
/// need not read the file again. It is a cache: the file is what counts.
#[derive(Debug)]
pub struct TabDocument {
    pub path: String,
    pub title: String,
    pub contents: String,
}

/// The session as it is written down between runs.
#[derive(Debug)]
pub struct UserData {
    /// The tabs that were open, in display order.
    pub active_tabs: Vec<Tab>,
    /// The identifier of the tab that was active.
    pub last_open_tab: String,
    /// The files the workspace knew.
    pub recent_files: Vec<FileInfo>,
    /// The theme that was in use.
    pub current_theme: Theme,
}

impl Clone for UserData {
    fn clone(&self) -> (copy: Self)
        ensures
            copy@ == self@,
    {
        UserData {
            active_tabs: copy_tabs(&self.active_tabs),
            last_open_tab: self.last_open_tab.clone(),
            recent_files: copy_files(&self.recent_files),
            current_theme: self.current_theme.clone(),
        }
    }
}

/// The open tabs in display order, and which of them is active.
#[derive(Debug)]
pub struct TabManager {
    pub tabs: IndexMap<String, Tab>,
    pub current_tab_id: Option<String>,
}

/// What a [`TabManager`] is in contracts: its entries in display order and
/// the identifier of the active tab.
pub struct TabManagerView {
    pub entries: TabEntries,
    pub current: Option<Seq<char>>,
}

impl View for TabManager {
    type V = TabManagerView;

    open spec fn view(&self) -> TabManagerView {
        TabManagerView {
            entries: tab_entries(self.tabs),
            current: match self.current_tab_id {
                Some(id) => Some(id@),
                None => None,
            },
        }
    }
}

/// The workspace: the cache of open documents, the files it knows, and the
/// theme in use.
#[derive(Debug)]
pub struct FileManager {
    pub documents: HashMap<String, TabDocument>,
    pub recent_files: Vec<FileInfo>,
    pub current_theme: Theme,
}

/// What a [`FileManager`] is in contracts.
pub struct FileManagerView {
    pub documents: Map<String, TabDocument>,
    pub files: Seq<FileInfoView>,
    pub theme: Seq<char>,
}

/// The files of a list as they are in contracts.
pub open spec fn file_views(files: Seq<FileInfo>) -> Seq<FileInfoView> {
    Seq::new(files.len(), |i: int| files[i]@)
}

/// The tabs of a list as they are in contracts.
pub open spec fn tab_views(tabs: Seq<Tab>) -> Seq<TabView> {
    Seq::new(tabs.len(), |i: int| tabs[i]@)
}

impl View for FileManager {
    type V = FileManagerView;

    open spec fn view(&self) -> FileManagerView {
        FileManagerView {
            documents: self.documents@,
            files: file_views(self.recent_files@),
            theme: self.current_theme@,
        }
    }
}

/// What a [`UserData`] is in contracts.
pub struct UserDataView {
    pub tabs: Seq<TabView>,
    pub last_open: Seq<char>,
    pub files: Seq<FileInfoView>,
    pub theme: Seq<char>,
}

impl View for UserData {
    type V = UserDataView;

    open spec fn view(&self) -> UserDataView {
        UserDataView {
            tabs: tab_views(self.active_tabs@),
            last_open: self.last_open_tab@,
            files: file_views(self.recent_files@),
            theme: self.current_theme@,
        }
    }
}

/// The whole session: the tabs, the table of commands and the workspace.
/// `A` is the type of a command's action.
#[verifier::reject_recursive_types(A)]
pub struct AppStateInner<A> {
    pub tab_switcher: TabManager,
    pub command_registry: CommandRegistry<A>,
    pub workspace: FileManager,
}

/// What the tabs and the workspace of an [`AppStateInner`] are in contracts.
/// Its commands are spoken of on their own.
pub struct AppStateView {
    pub tabs: TabManagerView,
    pub workspace: FileManagerView,
}

impl<A> View for AppStateInner<A> {
    type V = AppStateView;

    open spec fn view(&self) -> AppStateView {
        AppStateView { tabs: self.tab_switcher@, workspace: self.workspace@ }
    }
}

} // verus!
