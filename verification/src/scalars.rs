//! The answers of the scalar functions that change the file system, decided from
//! what the operating system reported.

use vstd::prelude::*;
use vstd::string::*;

verus! {

/// Why a scalar function failed.
#[derive(Clone, Copy, Debug, PartialEq, Eq)]
pub enum ScalarError {
    CouldNotDelete,
    CouldNotCreateFile,
    CouldNotCreateDirectory,
}

/// The message of a `ScalarError`.
pub open spec fn scalar_message(e: ScalarError) -> Seq<char> {
    match e {
        ScalarError::CouldNotDelete => "Could not delete file"@,
        ScalarError::CouldNotCreateFile => "Could not create file"@,
        ScalarError::CouldNotCreateDirectory => "Could not create directory"@,
    }
}

impl ScalarError {
    /// The error in words, for the host to show.
    pub fn message(&self) -> (r: String)
        ensures
            r@ == scalar_message(*self),
    {
        match self {
            ScalarError::CouldNotDelete => String::from_str("Could not delete file"),
            ScalarError::CouldNotCreateFile => String::from_str("Could not create file"),
            ScalarError::CouldNotCreateDirectory => String::from_str("Could not create directory"),
        }
    }
}

/// The answer of a deletion. A file that was not there is no error: nothing was
/// deleted, and the answer is `false`. `removed` counts only for a file that was there.
pub fn fs_delete(existed: bool, removed: bool) -> (r: Result<bool, ScalarError>)
    ensures
        r == if !existed {
            Ok::<bool, ScalarError>(false)
        } else if removed {
            Ok::<bool, ScalarError>(true)
        } else {
            Err::<bool, ScalarError>(ScalarError::CouldNotDelete)
        },
{
    if !existed {
        Ok(false)
    } else if removed {
        Ok(true)
    } else {
        Err(ScalarError::CouldNotDelete)
    }
}

/// The answer of a file's creation: whether the file is there afterwards, or the
/// error where it could not be created.
pub fn fs_new(created: bool, exists: bool) -> (r: Result<bool, ScalarError>)
    ensures
        r == if created {
            Ok::<bool, ScalarError>(exists)
        } else {
            Err::<bool, ScalarError>(ScalarError::CouldNotCreateFile)
        },
{
    if created {
        Ok(exists)
    } else {
        Err(ScalarError::CouldNotCreateFile)
    }
}

/// The answer of a directory's creation: whether the directory is there
/// afterwards, or the error where it could not be created.
pub fn fs_mk_dir(created: bool, exists: bool) -> (r: Result<bool, ScalarError>)
    ensures
        r == if created {
            Ok::<bool, ScalarError>(exists)
        } else {
            Err::<bool, ScalarError>(ScalarError::CouldNotCreateDirectory)
        },
{
    if created {
        Ok(exists)
    } else {
        Err(ScalarError::CouldNotCreateDirectory)
    }
}

} // verus!
