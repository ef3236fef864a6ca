//! The editor's state: which source file is open.
use vstd::prelude::*;

use crate::file_ops::get_file_name;
use crate::locator::opt_text;
use crate::paths::has_no_slash;

verus! {

/// A file as the editor shows it.
pub struct FileInfo {
    pub path: String,
    pub name: String,
    pub content: String,
}

/// The editor's state: the source file that is open, if any.
pub struct AppState {
    pub current_file: Option<String>,
}

/// The reason given when an operation needs an open file and there is none.
pub open spec fn no_file_error() -> Seq<char> {
    "No file is currently open"@
}

impl AppState {
    /// No file open.
    pub fn new() -> (r: AppState)
        ensures
            r.current_file is None,
    {
        AppState { current_file: None }
    }

    /// Makes `path`, whose text is `content`, the open file, and describes
    /// it.
    pub fn open_file(&mut self, path: String, content: String) -> (r: FileInfo)
        ensures
            opt_text(final(self).current_file) == Some(path@),
            r.path@ == path@,
            r.content@ == content@,
            r.name@.len() > 0,
            r.name@ == "Untitled"@ || has_no_slash(r.name@),
    {
        let name = get_file_name(path.as_str());
        self.current_file = Some(path.clone());
        FileInfo { path, name, content }
    }

    /// The open file's path, or why there is none.
    pub fn current_path(&self) -> (r: Result<String, String>)
        ensures
            match self.current_file {
                Some(p) => r matches Ok(q) && q@ == p@,
                None => r matches Err(e) && e@ == no_file_error(),
            },
    {
        match &self.current_file {
            Some(p) => Ok(p.clone()),
            None => Err("No file is currently open".to_owned()),
        }
    }
}

impl Default for AppState {
    fn default() -> (r: AppState)
        ensures
            r.current_file is None,
    {
        AppState::new()
    }
}

} // verus!
