//! Requests that write documents.

use crate::app_state::{AppStateInner, AppStateView, MarkdownFileData};
use crate::tab_manager::known_title;
use crate::text::same_text;
use crate::trove::{document_path, Trove};
use vstd::prelude::*;

verus! {

/// What a save does to the files of the trove: the document is written to
/// `file_path`, and before that the file at `old_path` is deleted if
/// `remove_old` is set and such a file exists.
///
/// A rename is thus a deletion followed by a write. If the program stops
/// between the two, the document is on disk under neither name.
#[derive(Debug)]
pub struct SavePlan {
    /// Where the document is written.
    pub file_path: String,
    /// Where the document was kept under its previous title.
    pub old_path: String,
    /// Whether the two differ, so that the old file is in the way.
    pub remove_old: bool,
}

/// What a [`SavePlan`] is in contracts.
pub struct SavePlanView {
    pub file_path: Seq<char>,
    pub old_path: Seq<char>,
    pub remove_old: bool,
}

impl View for SavePlan {
    type V = SavePlanView;

    open spec fn view(&self) -> SavePlanView {
        SavePlanView {
            file_path: self.file_path@,
            old_path: self.old_path@,
            remove_old: self.remove_old,
        }
    }
}

/// The plan for a document that moves from `old_path` to `file_path`.
pub open spec fn plan_between(file_path: Seq<char>, old_path: Seq<char>) -> SavePlanView {
    SavePlanView { file_path: file_path, old_path: old_path, remove_old: old_path != file_path }
}

/// The plan for saving, in the trove at `dir`, a document titled `title` that
/// was last known as `old_title`.
pub open spec fn save_plan(
    dir: Seq<char>,
    windows: bool,
    title: Seq<char>,
    old_title: Seq<char>,
) -> SavePlanView {
    plan_between(document_path(dir, windows, title), document_path(dir, windows, old_title))
}

/// The session after `document` was saved into the trove at `dir`: the
/// workspace has the save in its files, the tabs are as they were.
pub open spec fn after_save(
    state: AppStateView,
    dir: Seq<char>,
    windows: bool,
    id: Seq<char>,
    title: Seq<char>,
) -> AppStateView {
    AppStateView {
        tabs: state.tabs,
        workspace: state.workspace.saved(id, title, document_path(dir, windows, title)),
    }
}

impl SavePlan {
    /// The plan for a document that moves from `old_path` to `file_path`.
    pub fn between(file_path: String, old_path: String) -> (plan: Self)
        ensures
            plan@ == plan_between(file_path@, old_path@),
    {
        let remove_old = !same_text(old_path.as_str(), file_path.as_str());
        SavePlan { file_path, old_path, remove_old }
    }
}

/// Saves `document_data` into the session and says what is to be done on
/// disk.
///
/// The workspace takes the save into its files. The tabs are read for the
/// title under which the document was last known, and are not changed: the
/// plan compares the path that belongs to that title with the path that
/// belongs to the new one. The commands are not touched.
pub fn save_document_helper<A>(
    state: &mut AppStateInner<A>,
    trove: &Trove,
    document_data: &MarkdownFileData,
) -> (plan: SavePlan)
    ensures
        final(state)@ == after_save(
            old(state)@,
            trove.dir@,
            trove.windows_names,
            document_data.id@,
            document_data.title@,
        ),
        final(state).tab_switcher == old(state).tab_switcher,
        final(state).command_registry == old(state).command_registry,
        plan@ == save_plan(
            trove.dir@,
            trove.windows_names,
            document_data.title@,
            known_title(old(state)@.tabs.entries, document_data.id@),
        ),
{
    let file_path = trove.document_path(document_data.title.as_str());
    state.workspace.record_save(document_data, file_path.clone());
    let old_title = state.tab_switcher.title_or_default(document_data.id.as_str());
    let old_path = trove.document_path(old_title.as_str());
    SavePlan::between(file_path, old_path)
}

/// The requests that write documents.
pub struct IOCommands;

impl IOCommands {
    /// Saves the document of a request. `payload` is the document that the
    /// request carried, or `None` if it carried none that could be read.
    ///
    /// With a document, the session takes the save as
    /// [`save_document_helper`] says, and the result is the plan for the
    /// disk. Without one, nothing changes and there is no plan.
    pub fn save_document<A>(
        state: &mut AppStateInner<A>,
        trove: &Trove,
        payload: Option<MarkdownFileData>,
    ) -> (plan: Option<SavePlan>)
        ensures
            match payload {
                Some(document) => {
                    &&& final(state)@ == after_save(
                        old(state)@,
                        trove.dir@,
                        trove.windows_names,
                        document.id@,
                        document.title@,
                    )
                    &&& final(state).tab_switcher == old(state).tab_switcher
                    &&& final(state).command_registry == old(state).command_registry
                    &&& plan matches Some(plan) && plan@ == save_plan(
                        trove.dir@,
                        trove.windows_names,
                        document.title@,
                        known_title(old(state)@.tabs.entries, document.id@),
                    )
                },
                None => plan is None && *final(state) == *old(state),
            },
    {
        match payload {
            Some(document) => Some(save_document_helper(state, trove, &document)),
            None => None,
        }
    }
}

} // verus!
