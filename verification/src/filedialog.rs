//! File dialogs: they are open for a while and then answered once.

use vstd::prelude::*;
use vstd::string::*;
use crate::adb;

verus! {

/// A file dialog that was opened.
pub struct FileDialogHandle {
    /// A file to be written is asked for, else one to be read.
    pub save: bool,
    /// The name suggested.
    pub default_name: Option<String>,
    /// The answer, until it is fetched: a path, or that the dialog was cancelled.
    pub answer: Option<Option<String>>,
}

/// Opens a dialog for a file to be read.
pub fn pick_file() -> (h: FileDialogHandle)
    ensures
        !h.save,
        h.default_name is None,
        h.answer is None,
{
    FileDialogHandle { save: false, default_name: None, answer: None }
}

/// Opens a dialog for a file to be written, with a name suggested.
pub fn save_file(default_name: &str) -> (h: FileDialogHandle)
    ensures
        h.save,
        adb::opt_text(h.default_name) == Some(default_name@),
        h.answer is None,
{
    FileDialogHandle { save: true, default_name: Some(default_name.to_owned()), answer: None }
}

impl FileDialogHandle {
    /// Notes the answer; a dialog is answered once.
    pub fn put_answer(&mut self, path: Option<String>)
        ensures
            final(self).save == old(self).save,
            final(self).default_name == old(self).default_name,
            final(self).answer == Some(path),
    {
        self.answer = Some(path);
    }

    /// Fetches the answer, once: none while the dialog is open, and none in it where the
    /// dialog was cancelled.
    pub fn try_result(&mut self) -> (r: Option<Option<String>>)
        ensures
            r == old(self).answer,
            final(self).answer is None,
            final(self).save == old(self).save,
            final(self).default_name == old(self).default_name,
    {
        self.answer.take()
    }
}

} // verus!
