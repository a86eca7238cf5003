use vstd::prelude::*;

use crate::memfs::MemFs;
use crate::model::{exists_now, export_next, open_data, open_next, remove_file, save_as_next,
    save_next, BridgeModel};
use crate::outcome::{DialogOutcome, ReadOutcome, WriteOutcome};
use crate::response::{DbPathResponse, SaveResponse};
use crate::session::Session;

verus! {

/// The bridge run over the in-memory filesystem: the session state together
/// with the files, composed exactly as the commands run in production over
/// the real filesystem. Every command is verified to step the ghost model
/// [`BridgeModel`] as the model's transition functions say.
pub struct FileBridge {
    session: Session,
    fs: MemFs,
}

impl View for FileBridge {
    type V = BridgeModel;

    closed spec fn view(&self) -> BridgeModel {
        BridgeModel { current_path: self.session.path(), files: self.fs@ }
    }
}

impl FileBridge {
    /// A fresh bridge: no path of record, no file stored.
    pub fn new() -> (b: FileBridge)
        ensures
            b@ == BridgeModel::init(),
    {
        FileBridge { session: Session::new(), fs: MemFs::new() }
    }

    /// Save-as: a confirmed dialog writes `data` at the chosen path, which
    /// becomes the path of record; a cancelled dialog changes nothing.
    pub fn save_database_as(&mut self, dialog: DialogOutcome, data: Vec<u8>) -> (r: SaveResponse)
        ensures
            final(self)@ == save_as_next(old(self)@, dialog.chosen(), data@),
            match dialog {
                DialogOutcome::Cancelled => r.is_failure_with("Save cancelled"@),
                DialogOutcome::Chosen(p) => r.is_success_at(p@),
            },
    {
        match dialog {
            DialogOutcome::Cancelled => {
                self.session.save_database_as(DialogOutcome::Cancelled, None)
            },
            DialogOutcome::Chosen(p) => {
                self.fs.write_file(p.clone(), data);
                self.session.save_database_as(DialogOutcome::Chosen(p), Some(WriteOutcome::Written))
            },
        }
    }

    /// Save: write `data` at the path of record; with none set, fail at once
    /// without touching the filesystem.
    pub fn save_database(&mut self, data: Vec<u8>) -> (r: SaveResponse)
        ensures
            final(self)@ == save_next(old(self)@, data@),
            match old(self)@.current_path {
                None => r.is_failure_with("No database path set. Use 'Save As' first."@),
                Some(p) => r.is_success_at(p),
            },
    {
        let current = self.session.get_current_db_path();
        match current.path {
            None => self.session.save_database(None),
            Some(p) => {
                self.fs.write_file(p, data);
                self.session.save_database(Some(WriteOutcome::Written))
            },
        }
    }

    /// Open: the bytes at a chosen path are returned and the path becomes
    /// the path of record; a missing file or a cancelled dialog leaves the
    /// bridge as it was.
    pub fn open_database(&mut self, dialog: DialogOutcome) -> (r: Result<Vec<u8>, String>)
        ensures
            final(self)@ == open_next(old(self)@, dialog.chosen()),
            match dialog {
                DialogOutcome::Cancelled => r matches Err(e) && e@ == "Open cancelled"@,
                DialogOutcome::Chosen(p) => match open_data(old(self)@, Some(p@)) {
                    Some(d) => r matches Ok(v) && v@ == d,
                    None => r matches Err(e) && e@ == "Failed to read file: "@ + "file not found"@,
                },
            },
    {
        match dialog {
            DialogOutcome::Cancelled => {
                self.session.open_database(DialogOutcome::Cancelled, None)
            },
            DialogOutcome::Chosen(p) => {
                let data = self.fs.read_file(&p);
                match data {
                    Some(d) => self.session.open_database(
                        DialogOutcome::Chosen(p),
                        Some(ReadOutcome::Data(d)),
                    ),
                    None => self.session.open_database(
                        DialogOutcome::Chosen(p),
                        Some(ReadOutcome::Failed("file not found".to_owned())),
                    ),
                }
            },
        }
    }

    /// Export: the save-as flow run without the session; the path of record
    /// is untouched whatever the dialog reported.
    pub fn export_database(&mut self, dialog: DialogOutcome, data: Vec<u8>) -> (r: SaveResponse)
        ensures
            final(self)@ == export_next(old(self)@, dialog.chosen(), data@),
            final(self)@.current_path == old(self)@.current_path,
            match dialog {
                DialogOutcome::Cancelled => r.is_failure_with("Export cancelled"@),
                DialogOutcome::Chosen(p) => r.is_success_at(p@),
            },
    {
        match dialog {
            DialogOutcome::Cancelled => {
                crate::session::export_database(DialogOutcome::Cancelled, None)
            },
            DialogOutcome::Chosen(p) => {
                self.fs.write_file(p.clone(), data);
                crate::session::export_database(
                    DialogOutcome::Chosen(p),
                    Some(WriteOutcome::Written),
                )
            },
        }
    }

    /// Path query: the current path of record, with no side effect.
    pub fn get_current_db_path(&self) -> (r: DbPathResponse)
        ensures
            r.path_view() == self@.current_path,
    {
        self.session.get_current_db_path()
    }

    /// Existence check: whether a file is present at the path of record;
    /// `false` when none is set.
    pub fn check_db_exists(&self) -> (r: bool)
        ensures
            r == exists_now(self@),
    {
        let current = self.session.get_current_db_path();
        match current.path {
            None => self.session.check_db_exists(None),
            Some(p) => {
                let present = self.fs.exists_file(&p);
                self.session.check_db_exists(Some(present))
            },
        }
    }

    /// Removes the file at `path` from the filesystem, as an actor outside
    /// the bridge would; the session is not informed.
    pub fn delete_file(&mut self, path: String)
        ensures
            final(self)@ == remove_file(old(self)@, path@),
    {
        self.fs.delete_file(path);
    }
}

} // verus!
