use vstd::prelude::*;

use crate::model::{exists_now, export_next, lookup, open_data, open_next, remove_file,
    save_as_next, save_next, BridgeModel};

verus! {

/// Round trip: for every model, path and buffer, save-as confirmed at `p`
/// with buffer `data`, followed by open confirmed at `p`, returns exactly
/// `data`, and leaves `p` the path of record.
pub proof fn lemma_save_as_then_open_round_trip(m: BridgeModel, p: Seq<char>, data: Seq<u8>)
    ensures
        open_data(save_as_next(m, Some(p), data), Some(p)) == Some(data),
        open_next(save_as_next(m, Some(p), data), Some(p)).current_path == Some(p),
{
}

/// Save before any successful open or save-as: with no path of record the
/// model is left exactly as it was, so in particular no file is written.
/// That the response then reports failure with the no-path message is part
/// of the save command's own contract.
pub proof fn lemma_save_without_path_writes_nothing(m: BridgeModel, data: Seq<u8>)
    requires
        m.current_path is None,
    ensures
        save_next(m, data) == m,
{
}

/// After save-as succeeds at `p`, the path of record is `p`, and a
/// subsequent save stores its buffer at `p` without choosing a new path.
pub proof fn lemma_save_as_sets_path_of_record(
    m: BridgeModel,
    p: Seq<char>,
    data: Seq<u8>,
    data2: Seq<u8>,
)
    ensures
        save_as_next(m, Some(p), data).current_path == Some(p),
        save_next(save_as_next(m, Some(p), data), data2).current_path == Some(p),
        lookup(save_next(save_as_next(m, Some(p), data), data2).files, p) == Some(data2),
{
}

/// Export never changes the path of record, whether the dialog was
/// confirmed or cancelled.
pub proof fn lemma_export_preserves_path_of_record(
    m: BridgeModel,
    dialog: Option<Seq<char>>,
    data: Seq<u8>,
)
    ensures
        export_next(m, dialog, data).current_path == m.current_path,
{
}

/// The existence check answers `false` while no path of record is set; it
/// answers `true` right after a successful save-as; and it answers `false`
/// again once the file is deleted behind the bridge's back.
pub proof fn lemma_exists_reflects_filesystem(m: BridgeModel, p: Seq<char>, data: Seq<u8>)
    ensures
        m.current_path is None ==> !exists_now(m),
        exists_now(save_as_next(m, Some(p), data)),
        !exists_now(remove_file(save_as_next(m, Some(p), data), p)),
{
}

/// The path of record is monotonic within a session: once one is set, no
/// command unsets it, whatever the dialog and the filesystem report.
pub proof fn lemma_path_of_record_is_monotonic(
    m: BridgeModel,
    dialog: Option<Seq<char>>,
    data: Seq<u8>,
)
    requires
        m.current_path is Some,
    ensures
        save_as_next(m, dialog, data).current_path is Some,
        save_next(m, data).current_path is Some,
        open_next(m, dialog).current_path is Some,
        export_next(m, dialog, data).current_path is Some,
{
}

/// A cancelled dialog leaves the model exactly as it was, in save-as, open
/// and export alike; that each command then reports its failure message is
/// part of that command's own contract.
pub proof fn lemma_cancellation_changes_nothing(m: BridgeModel, data: Seq<u8>)
    ensures
        save_as_next(m, None, data) == m,
        open_next(m, None) == m,
        export_next(m, None, data) == m,
{
}

} // verus!
