//! The trove: the flat directory that holds the documents, and how a
//! document's title decides the file it is kept in.

use crate::file_name::{file_extension, file_stem, split_file_name};
use crate::text::{join_text, same_text};
use vstd::prelude::*;

verus! {

/// Directory of the application below the user's documents.
pub const APP_DATA_DIR: &'static str = "Rhyolite";

/// Directory, below the application's, that holds the persisted record.
pub const USER_DATA_DIR: &'static str = "appdata";

/// Name of the file that holds the persisted record.
pub const USER_DATA_FILE: &'static str = "userdata.json";

/// Name of the trove that is used when none was chosen.
pub const TROVE_DIR: &'static str = "Untitled_Trove";

/// Title of a document that was not given one.
pub const DEFAULT_NOTE_TITLE: &'static str = "Untitled";

/// Extension of the files that count as documents.
pub const DOCUMENT_EXTENSION: &'static str = "md";

/// What separates a directory from the name of a file in it.
pub const PATH_SEPARATOR: &'static str = "/";

/// What separates a file's stem from its extension.
pub const EXTENSION_SEPARATOR: &'static str = ".";

/// Where the documents are kept and how their names are made safe.
pub struct Trove {
    /// Path of the directory.
    pub dir: String,
    /// Whether file names also avoid what only Windows forbids: device names
    /// such as `con`, and trailing dots and spaces.
    pub windows_names: bool,
}

/// The safe form of `name` that `sanitize_filename` gives, with the rules of
/// Windows applied as well if `windows` is set.
pub uninterp spec fn sanitized_name(name: Seq<char>, windows: bool) -> Seq<char>;

/// `sanitize_filename::sanitize_with_options`, with that crate's default
/// options but for `windows`, which the caller chooses. The crate removes
/// what a file system does not take in a name (separators, control
/// characters, names made of dots alone, and on request what Windows
/// reserves) and cuts the rest to 255 bytes. The contract claims only that
/// the result is a function of the name and of the `windows` flag.
#[verifier::external_body]
fn sanitize(name: &str, windows: bool) -> (safe: String)
    ensures
        safe@ == sanitized_name(name@, windows),
{
    let mut options = sanitize_filename::Options::default();
    options.windows = windows;
    sanitize_filename::sanitize_with_options(name, options)
}

/// The name of the file that holds the document titled `title`: the safe form
/// of the title, a dot and the document extension.
pub open spec fn document_file_name(title: Seq<char>, windows: bool) -> Seq<char> {
    sanitized_name(title, windows) + EXTENSION_SEPARATOR@ + DOCUMENT_EXTENSION@
}

/// The path of the file called `name` in the directory `dir`.
pub open spec fn path_in(dir: Seq<char>, name: Seq<char>) -> Seq<char> {
    dir + PATH_SEPARATOR@ + name
}

/// The path at which the document titled `title` is kept.
pub open spec fn document_path(dir: Seq<char>, windows: bool, title: Seq<char>) -> Seq<char> {
    path_in(dir, document_file_name(title, windows))
}

/// The path of the document that is made when the trove holds none.
pub open spec fn default_document_path(dir: Seq<char>) -> Seq<char> {
    path_in(dir, DEFAULT_NOTE_TITLE@ + EXTENSION_SEPARATOR@ + DOCUMENT_EXTENSION@)
}

/// The path of the persisted record, given the application's directory.
pub open spec fn user_data_path(documents_dir: Seq<char>) -> Seq<char> {
    path_in(path_in(documents_dir, USER_DATA_DIR@), USER_DATA_FILE@)
}

/// Whether a file of this name is a document: its extension is the document
/// extension.
pub open spec fn is_document_name(name: Seq<char>) -> bool {
    file_extension(name) == Some(DOCUMENT_EXTENSION@)
}

/// The title of the document that a file named `name` holds, if it is one:
/// the name without its extension.
pub fn document_title(name: &str) -> (title: Option<String>)
    ensures
        match title {
            Some(title) => is_document_name(name@) && title@ == file_stem(name@),
            None => !is_document_name(name@),
        },
{
    let (stem, extension) = split_file_name(name);
    match extension {
        Some(extension) => {
            if same_text(extension.as_str(), DOCUMENT_EXTENSION) {
                Some(stem)
            } else {
                None
            }
        },
        None => None,
    }
}

/// The path of the persisted record, given the application's directory.
pub fn record_path(documents_dir: &str) -> (path: String)
    ensures
        path@ == user_data_path(documents_dir@),
{
    let prefix = join_text(documents_dir, PATH_SEPARATOR);
    let data_dir = join_text(prefix.as_str(), USER_DATA_DIR);
    let data_prefix = join_text(data_dir.as_str(), PATH_SEPARATOR);
    join_text(data_prefix.as_str(), USER_DATA_FILE)
}

impl Trove {
    /// The name of the file that holds the document titled `title`.
    pub fn file_name(&self, title: &str) -> (name: String)
        ensures
            name@ == document_file_name(title@, self.windows_names),
    {
        let safe = sanitize(title, self.windows_names);
        let stem = join_text(safe.as_str(), EXTENSION_SEPARATOR);
        join_text(stem.as_str(), DOCUMENT_EXTENSION)
    }

    /// The path of the file called `name` in the trove.
    pub fn path_of(&self, name: &str) -> (path: String)
        ensures
            path@ == path_in(self.dir@, name@),
    {
        let prefix = join_text(self.dir.as_str(), PATH_SEPARATOR);
        join_text(prefix.as_str(), name)
    }

    /// The path at which the document titled `title` is kept.
    pub fn document_path(&self, title: &str) -> (path: String)
        ensures
            path@ == document_path(self.dir@, self.windows_names, title@),
    {
        let name = self.file_name(title);
        self.path_of(name.as_str())
    }

    /// The path of the document that is made when the trove holds none.
    pub fn default_document_path(&self) -> (path: String)
        ensures
            path@ == default_document_path(self.dir@),
    {
        let stem = join_text(DEFAULT_NOTE_TITLE, EXTENSION_SEPARATOR);
        let name = join_text(stem.as_str(), DOCUMENT_EXTENSION);
        self.path_of(name.as_str())
    }
}

} // verus!
