//! The workspace: the files it knows and how a save is written into them.

use crate::app_state::{
    file_views, FileInfo, FileInfoView, FileManager, FileManagerView, MarkdownFileData,
    TabDocument, Theme,
};
use std::collections::HashMap;
use vstd::prelude::*;

verus! {

/// Whether some file of the list holds the document `id`.
pub open spec fn knows(files: Seq<FileInfoView>, id: Seq<char>) -> bool {
    exists|i: int| 0 <= i < files.len() && (#[trigger] files[i]).id == id
}

/// Whether `i` is the first position whose file holds the document `id`.
pub open spec fn is_file_position(files: Seq<FileInfoView>, id: Seq<char>, i: int) -> bool {
    &&& 0 <= i < files.len()
    &&& files[i].id == id
    &&& forall|j: int| 0 <= j < i ==> (#[trigger] files[j]).id != id
}

/// The first position whose file holds the document `id`, where there is one.
pub open spec fn file_position(files: Seq<FileInfoView>, id: Seq<char>) -> int {
    choose|i: int| is_file_position(files, id, i)
}

/// The number of files of the list that hold the document `id`.
pub open spec fn count_of(files: Seq<FileInfoView>, id: Seq<char>) -> nat
    decreases files.len(),
{
    if files.len() == 0 {
        0
    } else {
        count_of(files.drop_last(), id) + if files.last().id == id {
            1nat
        } else {
            0nat
        }
    }
}

/// The files after a save of the document `id` under `title`: the first file
/// that holds the document takes the new title and keeps its path; if no file
/// holds it, a file with the path `path` is added at the end.
pub open spec fn recorded(
    files: Seq<FileInfoView>,
    id: Seq<char>,
    title: Seq<char>,
    path: Seq<char>,
) -> Seq<FileInfoView> {
    if knows(files, id) {
        let at = file_position(files, id);
        files.update(at, FileInfoView { id: files[at].id, title: title, path: files[at].path })
    } else {
        files.push(FileInfoView { id: id, title: title, path: path })
    }
}

impl FileManagerView {
    /// The workspace after a save was written into its files.
    pub open spec fn saved(
        self,
        id: Seq<char>,
        title: Seq<char>,
        path: Seq<char>,
    ) -> FileManagerView {
        FileManagerView {
            documents: self.documents,
            files: recorded(self.files, id, title, path),
            theme: self.theme,
        }
    }
}

impl Default for FileManager {
    /// A workspace that knows no file and caches no document, with the
    /// built-in theme.
    fn default() -> (workspace: Self)
        ensures
            workspace@.documents == Map::<String, TabDocument>::empty(),
            workspace@.files == Seq::<FileInfoView>::empty(),
            workspace@.theme == Seq::<char>::empty(),
    {
        let workspace = FileManager {
            documents: HashMap::new(),
            recent_files: Vec::new(),
            current_theme: Theme::default(),
        };
        assert(workspace@.files =~= Seq::<FileInfoView>::empty());
        workspace
    }
}

impl FileManager {
    /// A workspace that knows the files `recent_files` and uses the theme
    /// `current_theme`. Its cache of documents is empty.
    pub fn with_files(recent_files: Vec<FileInfo>, current_theme: Theme) -> (workspace: Self)
        ensures
            workspace@.documents == Map::<String, TabDocument>::empty(),
            workspace@.files == file_views(recent_files@),
            workspace@.theme == current_theme@,
    {
        FileManager { documents: HashMap::new(), recent_files, current_theme }
    }

    /// The first position whose file holds the document `id`, if there is
    /// one.
    pub fn position_of(&self, id: &String) -> (position: Option<usize>)
        ensures
            match position {
                Some(at) => is_file_position(self@.files, id@, at as int),
                None => !knows(self@.files, id@),
            },
    {
        let mut at: usize = 0;
        while at < self.recent_files.len()
            invariant
                at <= self.recent_files.len(),
                forall|j: int| 0 <= j < at ==> (#[trigger] self@.files[j]).id != id@,
            decreases self.recent_files.len() - at,
        {
            if self.recent_files[at].id == *id {
                return Some(at);
            }
            at = at + 1;
        }
        None
    }

    /// Writes a save of `document` into the files: the first file that holds
    /// the document takes its title and keeps its path; if no file holds it,
    /// a file with the path `file_path` is added at the end.
    pub fn record_save(&mut self, document: &MarkdownFileData, file_path: String)
        ensures
            final(self)@ == old(self)@.saved(document.id@, document.title@, file_path@),
    {
        match self.position_of(&document.id) {
            Some(at) => {
                proof {
                    lemma_file_position(self@.files, document.id@, at as int);
                }
                let renamed = FileInfo {
                    id: self.recent_files[at].id.clone(),
                    title: document.title.clone(),
                    path: self.recent_files[at].path.clone(),
                };
                self.recent_files.set(at, renamed);
            },
            None => {
                self.recent_files.push(
                    FileInfo {
                        id: document.id.clone(),
                        title: document.title.clone(),
                        path: file_path,
                    },
                );
            },
        }
        assert(self@.files =~= recorded(
            old(self)@.files,
            document.id@,
            document.title@,
            file_path@,
        ));
    }
}

/// The first position that holds a document is the only one that is first.
pub proof fn lemma_file_position(files: Seq<FileInfoView>, id: Seq<char>, at: int)
    requires
        is_file_position(files, id, at),
    ensures
        knows(files, id),
        file_position(files, id) == at,
{
    let chosen = file_position(files, id);
    assert(is_file_position(files, id, chosen));
    if chosen < at {
        assert(files[chosen].id != id);
    } else if at < chosen {
        assert(files[at].id != id);
    }
}

} // verus!
