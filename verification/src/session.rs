use vstd::prelude::*;
use vstd::pervasive::unreached;

use crate::outcome::{DialogOutcome, ReadOutcome, WriteOutcome};
use crate::response::{concat, DbPathResponse, SaveResponse};

verus! {

/// The session state of the bridge: the path of record, if a successful open
/// or save-as has established one since process start.
pub struct Session {
    pub current_db_path: Option<String>,
}

impl Session {
    /// The path of record as a sequence of characters, if set.
    pub open spec fn path(&self) -> Option<Seq<char>> {
        match self.current_db_path {
            Some(p) => Some(p@),
            None => None,
        }
    }

    /// A fresh session: no path of record yet.
    pub fn new() -> (s: Session)
        ensures
            s.path() is None,
    {
        Session { current_db_path: None }
    }

    /// Save-as command. `dialog` is what the native save dialog reported;
    /// `write` is the outcome of writing the buffer to the chosen path, and
    /// is present exactly when a path was chosen. On a successful write the
    /// chosen path becomes the path of record; in every other case the
    /// session is left unchanged.
    pub fn save_database_as(&mut self, dialog: DialogOutcome, write: Option<WriteOutcome>) -> (r: SaveResponse)
        requires
            dialog is Chosen <==> write is Some,
        ensures
            match dialog {
                DialogOutcome::Cancelled => {
                    &&& *final(self) == *old(self)
                    &&& r.is_failure_with("Save cancelled"@)
                },
                DialogOutcome::Chosen(p) => match write {
                    Some(WriteOutcome::Written) => {
                        &&& final(self).path() == Some(p@)
                        &&& r.is_success_at(p@)
                    },
                    Some(WriteOutcome::Failed(e)) => {
                        &&& *final(self) == *old(self)
                        &&& r.is_failure_with("Failed to write file: "@ + e@)
                    },
                    None => true,
                },
            },
    {
        match (dialog, write) {
            (DialogOutcome::Cancelled, _) => SaveResponse::failure("Save cancelled".to_owned()),
            (DialogOutcome::Chosen(p), Some(WriteOutcome::Written)) => {
                self.current_db_path = Some(p.clone());
                SaveResponse::success_at(p)
            },
            (DialogOutcome::Chosen(_), Some(WriteOutcome::Failed(e))) => {
                SaveResponse::failure(concat("Failed to write file: ", e.as_str()))
            },
            (DialogOutcome::Chosen(_), None) => unreached(),
        }
    }

    /// Save command. With no path of record it fails at once, and no write
    /// outcome exists because no write was attempted; with one, `write` is
    /// the outcome of writing the buffer to that path. The path of record is
    /// never changed, which the shared borrow of the session already shows.
    pub fn save_database(&self, write: Option<WriteOutcome>) -> (r: SaveResponse)
        requires
            self.path() is Some <==> write is Some,
        ensures
            match self.current_db_path {
                None => r.is_failure_with("No database path set. Use 'Save As' first."@),
                Some(p) => match write {
                    Some(WriteOutcome::Written) => r.is_success_at(p@),
                    Some(WriteOutcome::Failed(e)) => r.is_failure_with("Failed to write file: "@ + e@),
                    None => true,
                },
            },
    {
        match (&self.current_db_path, write) {
            (None, _) => SaveResponse::failure("No database path set. Use 'Save As' first.".to_owned()),
            (Some(p), Some(WriteOutcome::Written)) => SaveResponse::success_at(p.clone()),
            (Some(_), Some(WriteOutcome::Failed(e))) => {
                SaveResponse::failure(concat("Failed to write file: ", e.as_str()))
            },
            (Some(_), None) => unreached(),
        }
    }

    /// Open command. `dialog` is what the native pick dialog reported;
    /// `read` is the outcome of reading the chosen file, and is present
    /// exactly when a path was chosen. On a successful read the chosen path
    /// becomes the path of record and the bytes are returned; in every other
    /// case the session is left unchanged and an error message is returned.
    pub fn open_database(&mut self, dialog: DialogOutcome, read: Option<ReadOutcome>) -> (r: Result<Vec<u8>, String>)
        requires
            dialog is Chosen <==> read is Some,
        ensures
            match dialog {
                DialogOutcome::Cancelled => {
                    &&& *final(self) == *old(self)
                    &&& r matches Err(e) && e@ == "Open cancelled"@
                },
                DialogOutcome::Chosen(p) => match read {
                    Some(ReadOutcome::Data(d)) => {
                        &&& final(self).path() == Some(p@)
                        &&& r matches Ok(v) && v == d
                    },
                    Some(ReadOutcome::Failed(e)) => {
                        &&& *final(self) == *old(self)
                        &&& r matches Err(m) && m@ == "Failed to read file: "@ + e@
                    },
                    None => true,
                },
            },
    {
        match (dialog, read) {
            (DialogOutcome::Cancelled, _) => Err("Open cancelled".to_owned()),
            (DialogOutcome::Chosen(p), Some(ReadOutcome::Data(d))) => {
                self.current_db_path = Some(p);
                Ok(d)
            },
            (DialogOutcome::Chosen(_), Some(ReadOutcome::Failed(e))) => {
                Err(concat("Failed to read file: ", e.as_str()))
            },
            (DialogOutcome::Chosen(_), None) => unreached(),
        }
    }

    /// Path query command: the current path of record, with no side effect.
    pub fn get_current_db_path(&self) -> (r: DbPathResponse)
        ensures
            r.path == self.current_db_path,
    {
        DbPathResponse { path: self.current_db_path.clone() }
    }

    /// Existence-check command. `present` is whether the filesystem holds an
    /// entry at the path of record, and is present exactly when a path of
    /// record is set; with none set the command answers `false` rather than
    /// an error, and the filesystem is not consulted.
    pub fn check_db_exists(&self, present: Option<bool>) -> (r: bool)
        requires
            self.path() is Some <==> present is Some,
        ensures
            self.path() is None ==> r == false,
            present matches Some(b) ==> r == b,
    {
        match present {
            Some(b) => b,
            None => false,
        }
    }
}

/// Export command. The same dialog-and-write flow as save-as, but no session
/// is involved at all: exporting produces a copy and never touches the path
/// of record, which the signature itself shows.
pub fn export_database(dialog: DialogOutcome, write: Option<WriteOutcome>) -> (r: SaveResponse)
    requires
        dialog is Chosen <==> write is Some,
    ensures
        match dialog {
            DialogOutcome::Cancelled => r.is_failure_with("Export cancelled"@),
            DialogOutcome::Chosen(p) => match write {
                Some(WriteOutcome::Written) => r.is_success_at(p@),
                Some(WriteOutcome::Failed(e)) => r.is_failure_with("Failed to write file: "@ + e@),
                None => true,
            },
        },
{
    match (dialog, write) {
        (DialogOutcome::Cancelled, _) => SaveResponse::failure("Export cancelled".to_owned()),
        (DialogOutcome::Chosen(p), Some(WriteOutcome::Written)) => SaveResponse::success_at(p),
        (DialogOutcome::Chosen(_), Some(WriteOutcome::Failed(e))) => {
            SaveResponse::failure(concat("Failed to write file: ", e.as_str()))
        },
        (DialogOutcome::Chosen(_), None) => unreached(),
    }
}

} // verus!
