//! One entry of a directory as the relation shows it, and how it is made from what
//! the operating system reported about the entry.

use vstd::prelude::*;
use vstd::string::*;
use crate::paths::{extension_of, extension_spec, file_name_of, file_name_spec};

verus! {

/// A point in time: whole seconds since the Unix epoch, and the nanoseconds into
/// that second.
#[derive(Clone, Copy, Debug, PartialEq, Eq)]
pub struct Timestamp {
    pub secs: i64,
    pub nanos: u32,
}

/// The nanoseconds from the Unix epoch to a point in time; negative before the epoch.
pub open spec fn nanos_since_epoch(t: Timestamp) -> int {
    t.secs * 1_000_000_000 + t.nanos
}

impl Timestamp {
    /// The point in time that lies `secs` seconds and `nanos` nanoseconds after the
    /// Unix epoch, or that far before it. There is none where `nanos` is a full
    /// second or more, or where `secs` is beyond what a signed count can hold.
    pub fn from_distance(before_epoch: bool, secs: u64, nanos: u32) -> (r: Option<Timestamp>)
        ensures
            r is Some <==> secs <= 0x7fff_ffff_ffff_ffff && nanos < 1_000_000_000,
            r is Some ==> r->0.nanos < 1_000_000_000 && nanos_since_epoch(r->0) == if before_epoch {
                -(secs * 1_000_000_000 + nanos)
            } else {
                secs * 1_000_000_000 + nanos
            },
    {
        if secs > 0x7fff_ffff_ffff_ffff || nanos >= 1_000_000_000 {
            return None;
        }
        let whole: i64 = secs as i64;
        if !before_epoch {
            Some(Timestamp { secs: whole, nanos })
        } else if nanos == 0 {
            Some(Timestamp { secs: -whole, nanos: 0 })
        } else {
            Some(Timestamp { secs: -whole - 1, nanos: 1_000_000_000 - nanos })
        }
    }
}

/// What the operating system reported about an entry. Each of the three times is
/// `None` where the platform or the file system could not give it.
#[derive(Clone, Copy, Debug, PartialEq, Eq)]
pub struct RawMetadata {
    pub is_dir: bool,
    pub len: u64,
    pub is_file: bool,
    pub is_symlink: bool,
    pub accessed: Option<Timestamp>,
    pub created: Option<Timestamp>,
    pub readonly: bool,
    pub modified: Option<Timestamp>,
}

/// An entry as the enumeration of its directory yielded it.
#[derive(Clone, Debug, PartialEq, Eq)]
pub struct RawEntry {
    /// The entry's path, in the form in which it is displayed.
    pub path: String,
    /// Whether the entry's name could be decoded as text.
    pub decodable: bool,
    /// The entry's metadata, or `None` where it could not be read.
    pub metadata: Option<RawMetadata>,
    /// The time at which the entry was looked at.
    pub scan_time: Timestamp,
}

/// One row of the relation.
#[derive(Clone, Debug, PartialEq, Eq)]
pub struct DirectoryEntry {
    pub path: String,
    pub is_dir: bool,
    pub is_file: bool,
    pub is_sym_link: bool,
    pub bytes: i64,
    pub created: Option<Timestamp>,
    pub modified: Option<Timestamp>,
    pub accessed: Option<Timestamp>,
    pub readonly: bool,
    pub extension: String,
    pub file_name: String,
}

/// A `DirectoryEntry` as a mathematical value.
pub struct EntryView {
    pub path: Seq<char>,
    pub is_dir: bool,
    pub is_file: bool,
    pub is_sym_link: bool,
    pub bytes: i64,
    pub created: Option<Timestamp>,
    pub modified: Option<Timestamp>,
    pub accessed: Option<Timestamp>,
    pub readonly: bool,
    pub extension: Seq<char>,
    pub file_name: Seq<char>,
}

impl View for DirectoryEntry {
    type V = EntryView;

    open spec fn view(&self) -> EntryView {
        EntryView {
            path: self.path@,
            is_dir: self.is_dir,
            is_file: self.is_file,
            is_sym_link: self.is_sym_link,
            bytes: self.bytes,
            created: self.created,
            modified: self.modified,
            accessed: self.accessed,
            readonly: self.readonly,
            extension: self.extension@,
            file_name: self.file_name@,
        }
    }
}

/// The file name shown for a path: its final segment, or nothing where the name
/// could not be decoded.
pub open spec fn shown_file_name(path: Seq<char>, decodable: bool) -> Seq<char> {
    if decodable {
        file_name_spec(path)
    } else {
        Seq::<char>::empty()
    }
}

/// The extension shown for a path: that of its final segment, or nothing where the
/// name could not be decoded.
pub open spec fn shown_extension(path: Seq<char>, decodable: bool) -> Seq<char> {
    if decodable {
        extension_spec(path)
    } else {
        Seq::<char>::empty()
    }
}

/// The size shown for a length that the operating system reported: the same 64
/// bits, read as a signed number. A length that a signed number can hold is shown
/// as it is; a larger one shows as the negative number with the same bits.
pub open spec fn shown_bytes(len: u64) -> i64 {
    if len <= i64::MAX {
        len as i64
    } else {
        (len - 0x1_0000_0000_0000_0000) as i64
    }
}

/// Reads an unsigned length as a signed size.
fn signed_size(len: u64) -> (r: i64)
    ensures
        r == shown_bytes(len),
{
    if len <= 0x7fff_ffff_ffff_ffff {
        len as i64
    } else {
        let above: i64 = (len - 0x8000_0000_0000_0000) as i64;
        above + i64::MIN
    }
}

/// The row for an entry. With metadata the row shows it field by field, each time
/// on its own. Without, the row is still there: not a directory, not a file, not a
/// link, not read-only, of size 0, and with all three times set to the time of the scan.
pub open spec fn mapped(raw: RawEntry) -> EntryView {
    let file_name = shown_file_name(raw.path@, raw.decodable);
    let extension = shown_extension(raw.path@, raw.decodable);
    match raw.metadata {
        Some(meta) => EntryView {
            path: raw.path@,
            is_dir: meta.is_dir,
            is_file: meta.is_file,
            is_sym_link: meta.is_symlink,
            bytes: shown_bytes(meta.len),
            created: meta.created,
            modified: meta.modified,
            accessed: meta.accessed,
            readonly: meta.readonly,
            extension,
            file_name,
        },
        None => EntryView {
            path: raw.path@,
            is_dir: false,
            is_file: false,
            is_sym_link: false,
            bytes: 0,
            created: Some(raw.scan_time),
            modified: Some(raw.scan_time),
            accessed: Some(raw.scan_time),
            readonly: false,
            extension,
            file_name,
        },
    }
}

/// Makes the row for an entry. This never fails: an entry without metadata gets
/// the defaults that `mapped` names.
pub fn map_entry(raw: &RawEntry) -> (r: DirectoryEntry)
    ensures
        r@ == mapped(*raw),
{
    let file_name = if raw.decodable {
        file_name_of(raw.path.as_str())
    } else {
        String::new()
    };
    let extension = if raw.decodable {
        extension_of(raw.path.as_str())
    } else {
        String::new()
    };
    match raw.metadata {
        Some(meta) => DirectoryEntry {
            path: raw.path.clone(),
            is_dir: meta.is_dir,
            is_file: meta.is_file,
            is_sym_link: meta.is_symlink,
            bytes: signed_size(meta.len),
            created: meta.created,
            modified: meta.modified,
            accessed: meta.accessed,
            readonly: meta.readonly,
            extension,
            file_name,
        },
        None => DirectoryEntry {
            path: raw.path.clone(),
            is_dir: false,
            is_file: false,
            is_sym_link: false,
            bytes: 0,
            created: Some(raw.scan_time),
            modified: Some(raw.scan_time),
            accessed: Some(raw.scan_time),
            readonly: false,
            extension,
            file_name,
        },
    }
}

/// The file name and the extension of a row depend on the entry's path, and on
/// whether its name could be decoded, and on nothing else.
pub proof fn lemma_names_from_path(a: RawEntry, b: RawEntry)
    requires
        a.path@ == b.path@,
        a.decodable == b.decodable,
    ensures
        mapped(a).file_name == mapped(b).file_name,
        mapped(a).extension == mapped(b).extension,
        mapped(a).file_name == shown_file_name(mapped(a).path, a.decodable),
        mapped(a).extension == shown_extension(mapped(a).path, a.decodable),
{
}

/// A row made without metadata is a full row: every flag false, size 0, and no
/// time missing.
pub proof fn lemma_degraded_row(raw: RawEntry)
    requires
        raw.metadata is None,
    ensures
        !mapped(raw).is_dir && !mapped(raw).is_file && !mapped(raw).is_sym_link && !mapped(
            raw,
        ).readonly,
        mapped(raw).bytes == 0,
        mapped(raw).created == Some(raw.scan_time),
        mapped(raw).modified == Some(raw.scan_time),
        mapped(raw).accessed == Some(raw.scan_time),
{
}

} // verus!
