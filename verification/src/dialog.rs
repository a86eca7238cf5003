use vstd::prelude::*;

verus! {

/// The label of the file-type filter that every dialog applies.
pub fn filter_label() -> (r: &'static str)
    ensures
        r@ == "SQLite Database"@,
{
    "SQLite Database"
}

/// The single extension the file-type filter restricts to.
pub fn filter_extension() -> (r: &'static str)
    ensures
        r@ == "db"@,
{
    "db"
}

/// The file name the save-as and export dialogs suggest.
pub fn default_file_name() -> (r: &'static str)
    ensures
        r@ == "brewcode.db"@,
{
    "brewcode.db"
}

} // verus!
