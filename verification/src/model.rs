use vstd::prelude::*;

verus! {

/// Ghost model of the bridge: the path of record, and the files the bridge
/// works on, each a sequence of bytes stored at a path.
pub struct BridgeModel {
    pub current_path: Option<Seq<char>>,
    pub files: Map<Seq<char>, Seq<u8>>,
}

impl BridgeModel {
    /// The model at process start: no path of record, no file written yet.
    pub open spec fn init() -> BridgeModel {
        BridgeModel { current_path: None, files: Map::empty() }
    }
}

/// The bytes stored at path `p`, if a file is present there.
pub open spec fn lookup(files: Map<Seq<char>, Seq<u8>>, p: Seq<char>) -> Option<Seq<u8>> {
    if files.dom().contains(p) {
        Some(files[p])
    } else {
        None
    }
}

/// One save-as step: a confirmed dialog stores the buffer at the chosen path
/// and makes that path the path of record; a cancelled dialog changes
/// nothing.
pub open spec fn save_as_next(m: BridgeModel, dialog: Option<Seq<char>>, data: Seq<u8>) -> BridgeModel {
    match dialog {
        Some(p) => BridgeModel { current_path: Some(p), files: m.files.insert(p, data) },
        None => m,
    }
}

/// One save step: with a path of record the buffer is stored there and the
/// path of record stays as it is; without one nothing is written.
pub open spec fn save_next(m: BridgeModel, data: Seq<u8>) -> BridgeModel {
    match m.current_path {
        Some(p) => BridgeModel { current_path: m.current_path, files: m.files.insert(p, data) },
        None => m,
    }
}

/// What an open step returns: the bytes at the chosen path, if the dialog
/// was confirmed and a file is present there.
pub open spec fn open_data(m: BridgeModel, dialog: Option<Seq<char>>) -> Option<Seq<u8>> {
    match dialog {
        Some(p) => lookup(m.files, p),
        None => None,
    }
}

/// One open step: a successful read makes the chosen path the path of
/// record; a failed read or a cancelled dialog changes nothing.
pub open spec fn open_next(m: BridgeModel, dialog: Option<Seq<char>>) -> BridgeModel {
    match dialog {
        Some(p) => if m.files.dom().contains(p) {
            BridgeModel { current_path: Some(p), files: m.files }
        } else {
            m
        },
        None => m,
    }
}

/// One export step: a confirmed dialog stores the buffer at the chosen path;
/// the path of record is never touched, whatever the outcome.
pub open spec fn export_next(m: BridgeModel, dialog: Option<Seq<char>>, data: Seq<u8>) -> BridgeModel {
    match dialog {
        Some(p) => BridgeModel { current_path: m.current_path, files: m.files.insert(p, data) },
        None => m,
    }
}

/// Whether a file is present at the path of record; `false` when no path of
/// record is set.
pub open spec fn exists_now(m: BridgeModel) -> bool {
    match m.current_path {
        Some(p) => m.files.dom().contains(p),
        None => false,
    }
}

/// An actor outside the bridge removing the file at `p`, as an external
/// delete does; the path of record is not informed.
pub open spec fn remove_file(m: BridgeModel, p: Seq<char>) -> BridgeModel {
    BridgeModel { current_path: m.current_path, files: m.files.remove(p) }
}

} // verus!
