//! Where the lines that the user typed are kept.
use crate::text;
use vstd::prelude::*;

verus! {

/// A directory of the program.
#[derive(Debug, Clone, Copy, PartialEq, Eq, Structural)]
pub enum BaseDir {
    State,
    Config,
}

/// A file in a directory of the program.
pub struct BaseFile {
    pub dir: BaseDir,
    pub name: &'static str,
}

/// The file with the history, and the place from which it moves there.
pub struct HistoryManager {
    pub history_file: BaseFile,
    pub old_history_file: BaseFile,
}

/// What to do after the history was to be saved.
pub struct AfterSave {
    pub warning: Option<String>,
    pub remove_old: bool,
}

impl HistoryManager {
    /// The files of the program.
    pub fn new() -> (r: HistoryManager)
        ensures
            r.history_file.dir == BaseDir::State,
            r.history_file.name@ == "history.txt"@,
            r.old_history_file.dir == BaseDir::Config,
            r.old_history_file.name@ == "history.txt"@,
    {
        HistoryManager {
            history_file: BaseFile { dir: BaseDir::State, name: "history.txt" },
            old_history_file: BaseFile { dir: BaseDir::Config, name: "history.txt" },
        }
    }

    /// The file to read the history from: the old one only if there is no other.
    pub fn load(&self, new_exists: bool, old_exists: bool) -> (r: Option<&BaseFile>)
        ensures
            r == if new_exists {
                Some(&self.history_file)
            } else if old_exists {
                Some(&self.old_history_file)
            } else {
                None
            },
    {
        if new_exists {
            Some(&self.history_file)
        } else if old_exists {
            Some(&self.old_history_file)
        } else {
            None
        }
    }

    /// What follows the attempt to save the history: a warning if it failed, else
    /// the end of the old file.
    pub fn save(&self, saved: Result<(), String>, old_exists: bool) -> (r: AfterSave)
        ensures
            match saved {
                Ok(_) => r.warning is None && r.remove_old == old_exists,
                Err(why) => text::option_text(r.warning) == Some(
                    "Warning: Failed to save command history: "@ + why@,
                ) && !r.remove_old,
            },
    {
        match saved {
            Ok(_) => AfterSave { warning: None, remove_old: old_exists },
            Err(why) => AfterSave {
                warning: Some(
                    text::concat("Warning: Failed to save command history: ", why.as_str()),
                ),
                remove_old: false,
            },
        }
    }
}

} // verus!
