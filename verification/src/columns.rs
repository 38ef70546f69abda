//! The columns of the relation, in schema order.

use vstd::prelude::*;

verus! {

/// The declaration of the relation that the host receives on connect. The last
/// column, `input`, is hidden: it is the directory to list, and can only be filtered on.
pub const CREATE_SQL: &'static str =
    "CREATE TABLE x(path, is_dir, bytes, is_file, created, modified, accessed, is_sym_link, readonly, extension, file_name, input hidden)";

/// One column of the relation. `Permissions` is the column that the schema calls `readonly`.
#[derive(Clone, Copy, Debug, PartialEq, Eq, Structural)]
pub enum Columns {
    Path,
    IsDir,
    Bytes,
    IsFile,
    Created,
    Modified,
    Accessed,
    IsSymLink,
    Permissions,
    Extension,
    FileName,
    Input,
}

/// The column that stands at position `index` of the schema, if there is one.
pub open spec fn column_of(index: int) -> Option<Columns> {
    if index == 0 {
        Some(Columns::Path)
    } else if index == 1 {
        Some(Columns::IsDir)
    } else if index == 2 {
        Some(Columns::Bytes)
    } else if index == 3 {
        Some(Columns::IsFile)
    } else if index == 4 {
        Some(Columns::Created)
    } else if index == 5 {
        Some(Columns::Modified)
    } else if index == 6 {
        Some(Columns::Accessed)
    } else if index == 7 {
        Some(Columns::IsSymLink)
    } else if index == 8 {
        Some(Columns::Permissions)
    } else if index == 9 {
        Some(Columns::Extension)
    } else if index == 10 {
        Some(Columns::FileName)
    } else if index == 11 {
        Some(Columns::Input)
    } else {
        None
    }
}

/// The position of a column in the schema.
pub open spec fn position_of(c: Columns) -> int {
    match c {
        Columns::Path => 0,
        Columns::IsDir => 1,
        Columns::Bytes => 2,
        Columns::IsFile => 3,
        Columns::Created => 4,
        Columns::Modified => 5,
        Columns::Accessed => 6,
        Columns::IsSymLink => 7,
        Columns::Permissions => 8,
        Columns::Extension => 9,
        Columns::FileName => 10,
        Columns::Input => 11,
    }
}

/// Looks up the column at a position of the schema.
pub fn column(index: i32) -> (r: Option<Columns>)
    ensures
        r == column_of(index as int),
{
    match index {
        0 => Some(Columns::Path),
        1 => Some(Columns::IsDir),
        2 => Some(Columns::Bytes),
        3 => Some(Columns::IsFile),
        4 => Some(Columns::Created),
        5 => Some(Columns::Modified),
        6 => Some(Columns::Accessed),
        7 => Some(Columns::IsSymLink),
        8 => Some(Columns::Permissions),
        9 => Some(Columns::Extension),
        10 => Some(Columns::FileName),
        11 => Some(Columns::Input),
        _ => None,
    }
}

/// Every column is found at its own position, and at no other.
pub proof fn lemma_column_positions(index: int, c: Columns)
    ensures
        column_of(position_of(c)) == Some(c),
        column_of(index) == Some(c) <==> index == position_of(c),
{
}

} // verus!
