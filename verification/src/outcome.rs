use vstd::prelude::*;

verus! {

/// What the native save/open dialog reported: a path the user confirmed, or
/// cancellation.
pub enum DialogOutcome {
    Chosen(String),
    Cancelled,
}

impl DialogOutcome {
    /// The confirmed path, if the dialog was not cancelled.
    pub open spec fn chosen(&self) -> Option<Seq<char>> {
        match self {
            DialogOutcome::Chosen(p) => Some(p@),
            DialogOutcome::Cancelled => None,
        }
    }
}

/// What writing the buffer to disk reported: success, or the text of the
/// operating system's error.
pub enum WriteOutcome {
    Written,
    Failed(String),
}

/// What reading the chosen file reported: its bytes, or the text of the
/// operating system's error.
pub enum ReadOutcome {
    Data(Vec<u8>),
    Failed(String),
}

} // verus!
