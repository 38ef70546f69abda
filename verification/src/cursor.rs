//! The cursor: a snapshot of one directory, a position in it, and the projection of
//! the row at that position into column values.

use vstd::prelude::*;
use vstd::string::*;
use crate::columns::{column, column_of, Columns};
use crate::entry::{map_entry, mapped, DirectoryEntry, EntryView, RawEntry, Timestamp};
use crate::localtime::{
    is_offset, is_time_text, local_offset, representable, text_at_offset, time_text, FIRST_SECOND,
    LAST_SECOND, TIME_FORMAT,
};

verus! {

/// What came of enumerating the directory.
#[derive(Clone, Debug, PartialEq, Eq)]
pub enum Listing {
    /// The directory could not be opened: it is absent, not a directory, or not
    /// allowed to be read.
    Unreadable,
    /// The directory was opened. Each item is one step of the enumeration: an
    /// entry, or `None` where that step failed.
    Entries(Vec<Option<RawEntry>>),
}

/// Why a scan could not start.
#[derive(Clone, Debug, PartialEq, Eq)]
pub enum FilterError {
    /// No directory was given.
    MissingPath,
    /// The directory that was given could not be opened.
    DirectoryNotFound(String),
}

/// Why there is no value to project.
#[derive(Clone, Copy, Debug, PartialEq, Eq)]
pub enum CursorError {
    /// No scan has been started on the cursor.
    NotFiltered,
    /// The position is past the last row.
    Exhausted,
}

/// The value of one column of one row.
#[derive(Clone, Debug, PartialEq, Eq)]
pub enum ColumnValue {
    Text(String),
    Bool(bool),
    Integer(i64),
    Null,
}

/// A `ColumnValue` as a mathematical value.
pub enum ColumnView {
    Text(Seq<char>),
    Bool(bool),
    Integer(i64),
    Null,
}

impl View for ColumnValue {
    type V = ColumnView;

    open spec fn view(&self) -> ColumnView {
        match self {
            ColumnValue::Text(s) => ColumnView::Text(s@),
            ColumnValue::Bool(b) => ColumnView::Bool(*b),
            ColumnValue::Integer(n) => ColumnView::Integer(*n),
            ColumnValue::Null => ColumnView::Null,
        }
    }
}

/// A cursor as a mathematical value: the directory it was last pointed at, the
/// rows found there, and the position among them. Before the first scan there is
/// neither directory nor rows.
pub struct CursorView {
    pub input: Option<Seq<char>>,
    pub rows: Option<Seq<EntryView>>,
    pub idx: nat,
}

/// Where a cursor stands in its life.
#[derive(Clone, Copy, Debug, PartialEq, Eq, Structural)]
pub enum CursorState {
    /// No scan has been started.
    Unfiltered,
    /// A scan is under way, and there is a row at the position.
    Filtered,
    /// A scan has run past its last row.
    Exhausted,
}

/// The state of a cursor.
pub open spec fn state_of(c: CursorView) -> CursorState {
    match c.rows {
        None => CursorState::Unfiltered,
        Some(rows) => if c.idx < rows.len() {
            CursorState::Filtered
        } else {
            CursorState::Exhausted
        },
    }
}

/// The cursor after a call of `next`: one row further where there is a row at the
/// position, else as it was.
pub open spec fn after_next(c: CursorView) -> CursorView {
    if state_of(c) == CursorState::Filtered {
        CursorView { idx: c.idx + 1, ..c }
    } else {
        c
    }
}

/// A cursor over the entries of one directory.
#[derive(Debug)]
pub struct ListDirectoryCursor {
    input: Option<String>,
    directory_entries: Option<Vec<DirectoryEntry>>,
    idx: usize,
}

/// The text of the error for a missing directory argument.
pub const NO_PATH: &'static str = "No path name provided!";

/// The message of a `FilterError`.
pub open spec fn message_spec(e: FilterError) -> Seq<char> {
    match e {
        FilterError::MissingPath => NO_PATH@,
        FilterError::DirectoryNotFound(path) => "Directory "@ + path@ + " not found"@,
    }
}

impl FilterError {
    /// The error in words, for the host to show.
    pub fn message(&self) -> (r: String)
        ensures
            r@ == message_spec(*self),
    {
        match self {
            FilterError::MissingPath => String::from_str(NO_PATH),
            FilterError::DirectoryNotFound(path) => {
                let mut text = String::from_str("Directory ");
                text.append(path.as_str());
                text.append(" not found");
                text
            },
        }
    }
}

/// The entries that the enumeration yielded, in its order, without the steps that failed.
pub open spec fn readable(items: Seq<Option<RawEntry>>) -> Seq<RawEntry>
    decreases items.len(),
{
    if items.len() == 0 {
        Seq::<RawEntry>::empty()
    } else {
        let rest = readable(items.drop_last());
        match items.last() {
            Some(raw) => rest.push(raw),
            None => rest,
        }
    }
}

/// The snapshot for an enumeration: one row for each entry it yielded.
pub open spec fn listed(items: Seq<Option<RawEntry>>) -> Seq<EntryView> {
    readable(items).map_values(|raw: RawEntry| mapped(raw))
}

/// The rows that a vector of entries stands for.
pub open spec fn rows_of(entries: Seq<DirectoryEntry>) -> Seq<EntryView> {
    entries.map_values(|e: DirectoryEntry| e@)
}

/// The cursor after a call of `filter`. Without a directory, or with one that could
/// not be opened, the cursor is as it was. Else it holds the directory and its
/// snapshot, and stands at the first row.
pub open spec fn after_filter(before: CursorView, path: Option<Seq<char>>, listing: Listing)
    -> CursorView {
    match (path, listing) {
        (Some(p), Listing::Entries(items)) => CursorView {
            input: Some(p),
            rows: Some(listed(items@)),
            idx: 0,
        },
        _ => before,
    }
}

/// The column shows one of the three times of a row.
pub open spec fn is_time_column(c: Columns) -> bool {
    c == Columns::Created || c == Columns::Modified || c == Columns::Accessed
}

/// The time that a time column shows for a row, `None` where it could not be had.
pub open spec fn stamp_of(e: EntryView, c: Columns) -> Option<Timestamp> {
    match c {
        Columns::Created => e.created,
        Columns::Modified => e.modified,
        Columns::Accessed => e.accessed,
        _ => None,
    }
}

/// The value that a column shows for a row, for the columns that are read off the
/// row as it is.
pub open spec fn plain_value(e: EntryView, c: Columns) -> ColumnView {
    match c {
        Columns::Path => ColumnView::Text(e.path),
        Columns::IsDir => ColumnView::Bool(e.is_dir),
        Columns::Bytes => ColumnView::Integer(e.bytes),
        Columns::IsFile => ColumnView::Bool(e.is_file),
        Columns::IsSymLink => ColumnView::Bool(e.is_sym_link),
        Columns::Permissions => ColumnView::Bool(e.readonly),
        Columns::Extension => ColumnView::Text(e.extension),
        Columns::FileName => ColumnView::Text(e.file_name),
        _ => ColumnView::Null,
    }
}

/// The value that a time column shows for the time `t` on a clock that runs
/// `offset` seconds ahead of universal time: the calendar's text for it, or null
/// where the calendar cannot hold the time or the offset is a day or more.
pub open spec fn shown_at(t: Timestamp, offset: i32) -> ColumnView {
    if representable(t.secs, t.nanos) && is_offset(offset) {
        ColumnView::Text(time_text(t.secs, t.nanos, offset))
    } else {
        ColumnView::Null
    }
}

/// `v` is a value that a time column may show for the time `stamp`. A time that
/// is missing shows as null, and so does one that the calendar cannot hold. Every
/// other time shows as the calendar's text for it at some offset of less than a
/// day, which is a text in the shape of a time.
pub open spec fn shows_time(stamp: Option<Timestamp>, v: ColumnView) -> bool {
    match stamp {
        None => v == ColumnView::Null,
        Some(t) => if representable(t.secs, t.nanos) {
            &&& v is Text
            &&& is_time_text(v->Text_0)
            &&& exists|offset: i32|
                is_offset(offset) && v == ColumnView::Text(
                    #[trigger] time_text(t.secs, t.nanos, offset),
                )
        } else {
            v == ColumnView::Null
        },
    }
}

/// `v` is a value that column `c` may show for row `e`. A time column shows the
/// row's time as `shows_time` says. Every other column shows exactly its field.
pub open spec fn shows(e: EntryView, c: Columns, v: ColumnView) -> bool {
    if is_time_column(c) {
        shows_time(stamp_of(e, c), v)
    } else {
        v == plain_value(e, c)
    }
}

/// The value for a time, given its text where the calendar has one.
pub fn text_or_null(text: Option<String>) -> (r: ColumnValue)
    ensures
        r@ == match text {
            Some(t) => ColumnView::Text(t@),
            None => ColumnView::Null,
        },
{
    match text {
        Some(t) => ColumnValue::Text(t),
        None => ColumnValue::Null,
    }
}

/// The value for a time on a clock that runs `offset` seconds ahead of universal
/// time.
pub fn time_at_offset(t: Timestamp, offset: i32) -> (r: ColumnValue)
    ensures
        r@ == shown_at(t, offset),
        r@ is Text ==> is_time_text(r@->Text_0),
{
    text_or_null(text_at_offset(t.secs, t.nanos, offset, TIME_FORMAT))
}

/// The value for a time of a row: null where the row has none or the calendar
/// cannot hold it, else its text in local time.
pub fn time_value(stamp: Option<Timestamp>) -> (r: ColumnValue)
    ensures
        shows_time(stamp, r@),
{
    match stamp {
        None => ColumnValue::Null,
        Some(t) => match local_offset(t.secs, t.nanos) {
            None => ColumnValue::Null,
            Some(offset) => {
                let value = time_at_offset(t, offset);
                assert(value@ == ColumnView::Text(time_text(t.secs, t.nanos, offset)));
                value
            },
        },
    }
}

/// The value of column `c` for row `e`. The hidden `input` column is no part of a
/// row and shows as null here.
pub fn project(e: &DirectoryEntry, c: Columns) -> (r: ColumnValue)
    ensures
        shows(e@, c, r@),
{
    match c {
        Columns::Path => ColumnValue::Text(e.path.clone()),
        Columns::IsDir => ColumnValue::Bool(e.is_dir),
        Columns::Bytes => ColumnValue::Integer(e.bytes),
        Columns::IsFile => ColumnValue::Bool(e.is_file),
        Columns::Created => time_value(e.created),
        Columns::Modified => time_value(e.modified),
        Columns::Accessed => time_value(e.accessed),
        Columns::IsSymLink => ColumnValue::Bool(e.is_sym_link),
        Columns::Permissions => ColumnValue::Bool(e.readonly),
        Columns::Extension => ColumnValue::Text(e.extension.clone()),
        Columns::FileName => ColumnValue::Text(e.file_name.clone()),
        Columns::Input => ColumnValue::Null,
    }
}

/// Makes the rows for what an enumeration yielded.
pub fn snapshot(items: &Vec<Option<RawEntry>>) -> (r: Vec<DirectoryEntry>)
    ensures
        rows_of(r@) == listed(items@),
{
    let mut entries: Vec<DirectoryEntry> = Vec::new();
    let mut i: usize = 0;
    assert(items@.take(0) =~= Seq::<Option<RawEntry>>::empty());
    assert(rows_of(entries@) =~= listed(items@.take(0)));
    while i < items.len()
        invariant
            i <= items.len(),
            rows_of(entries@) == listed(items@.take(i as int)),
        decreases items.len() - i,
    {
        let ghost before = entries@;
        proof {
            assert(items@.take(i + 1).drop_last() =~= items@.take(i as int));
            assert(items@.take(i + 1).last() == items@[i as int]);
        }
        match &items[i] {
            Some(raw) => {
                let e = map_entry(raw);
                entries.push(e);
                assert(rows_of(entries@) =~= rows_of(before).push(e@));
                assert(listed(items@.take(i + 1)) =~= listed(items@.take(i as int)).push(
                    mapped(*raw),
                ));
            },
            None => {},
        }
        i += 1;
    }
    assert(items@.take(items.len() as int) =~= items@);
    entries
}

impl View for ListDirectoryCursor {
    type V = CursorView;

    closed spec fn view(&self) -> CursorView {
        CursorView {
            input: match self.input {
                Some(s) => Some(s@),
                None => None,
            },
            rows: match self.directory_entries {
                Some(v) => Some(rows_of(v@)),
                None => None,
            },
            idx: self.idx as nat,
        }
    }
}

impl ListDirectoryCursor {
    #[verifier::type_invariant]
    spec fn wf(self) -> bool {
        &&& self.input is Some <==> self.directory_entries is Some
        &&& match self.directory_entries {
            Some(v) => self.idx <= v@.len(),
            None => self.idx == 0,
        }
    }

    /// A cursor on which no scan has been started.
    pub fn new() -> (r: ListDirectoryCursor)
        ensures
            r@ == (CursorView { input: None, rows: None, idx: 0 }),
    {
        ListDirectoryCursor { input: None, directory_entries: None, idx: 0 }
    }

    /// Starts a scan of the directory `path`, of which `listing` is the enumeration.
    ///
    /// Without a path the scan fails, and so it does where the directory could not
    /// be opened; the cursor then stays as it was. Else the cursor takes one row
    /// for each entry that was enumerated, drops what it held, and stands at the
    /// first row.
    pub fn filter(&mut self, path: Option<String>, listing: Listing) -> (r: Result<
        (),
        FilterError,
    >)
        ensures
            final(self)@ == after_filter(
                old(self)@,
                match path {
                    Some(p) => Some(p@),
                    None => None,
                },
                listing,
            ),
            match (path, listing) {
                (None, _) => r == Err::<(), FilterError>(FilterError::MissingPath),
                (Some(p), Listing::Unreadable) => r is Err && r->Err_0 is DirectoryNotFound
                    && r->Err_0->DirectoryNotFound_0@ == p@,
                (Some(p), Listing::Entries(_)) => r is Ok,
            },
    {
        let path = match path {
            Some(p) => p,
            None => {
                return Err(FilterError::MissingPath);
            },
        };
        let items = match listing {
            Listing::Entries(items) => items,
            Listing::Unreadable => {
                return Err(FilterError::DirectoryNotFound(path));
            },
        };
        let entries = snapshot(&items);
        *self = ListDirectoryCursor {
            input: Some(path),
            directory_entries: Some(entries),
            idx: 0,
        };
        Ok(())
    }

    /// Moves to the next row. At the end, and before the first scan, nothing moves.
    pub fn next(&mut self)
        ensures
            final(self)@ == after_next(old(self)@),
    {
        let has_row = match &self.directory_entries {
            Some(entries) => self.idx < entries.len(),
            None => false,
        };
        if has_row {
            proof {
                use_type_invariant(&*self);
            }
            self.idx = self.idx + 1;
        }
    }

    /// Where the cursor stands in its life.
    pub fn state(&self) -> (r: CursorState)
        ensures
            r == state_of(self@),
    {
        match &self.directory_entries {
            None => CursorState::Unfiltered,
            Some(entries) => if self.idx < entries.len() {
                CursorState::Filtered
            } else {
                CursorState::Exhausted
            },
        }
    }

    /// Whether there is no row at the position: always so before the first scan.
    pub fn eof(&self) -> (r: bool)
        ensures
            r == match self@.rows {
                Some(rows) => self@.idx >= rows.len(),
                None => true,
            },
            r == (state_of(self@) != CursorState::Filtered),
    {
        match &self.directory_entries {
            Some(entries) => self.idx >= entries.len(),
            None => true,
        }
    }

    /// The value of the column at position `i` of the schema, for the row at the
    /// cursor's position.
    ///
    /// The hidden `input` column shows the directory of the scan, whatever the
    /// position. A position of the schema that holds no column shows null. Every
    /// other column needs a row to read: before the first scan and past the last
    /// row there is none, and the call fails.
    pub fn column(&self, i: i32) -> (r: Result<ColumnValue, CursorError>)
        ensures
            match column_of(i as int) {
                None => r is Ok && r->Ok_0@ == ColumnView::Null,
                Some(Columns::Input) => match self@.input {
                    Some(s) => r is Ok && r->Ok_0@ == ColumnView::Text(s),
                    None => r == Err::<ColumnValue, CursorError>(CursorError::NotFiltered),
                },
                Some(c) => match self@.rows {
                    None => r == Err::<ColumnValue, CursorError>(CursorError::NotFiltered),
                    Some(rows) => if self@.idx >= rows.len() {
                        r == Err::<ColumnValue, CursorError>(CursorError::Exhausted)
                    } else {
                        r is Ok && shows(rows[self@.idx as int], c, r->Ok_0@)
                    },
                },
            },
    {
        let c = match column(i) {
            Some(c) => c,
            None => {
                return Ok(ColumnValue::Null);
            },
        };
        if let Columns::Input = c {
            return match &self.input {
                Some(s) => Ok(ColumnValue::Text(s.clone())),
                None => Err(CursorError::NotFiltered),
            };
        }
        match &self.directory_entries {
            None => Err(CursorError::NotFiltered),
            Some(entries) => {
                if self.idx >= entries.len() {
                    Err(CursorError::Exhausted)
                } else {
                    Ok(project(&entries[self.idx], c))
                }
            },
        }
    }

    /// The position among the rows. A cursor holds a directory exactly when it
    /// holds rows, and its position is never past the end of the rows.
    pub fn position(&self) -> (r: usize)
        ensures
            r == self@.idx,
            self@.input is Some <==> self@.rows is Some,
            match self@.rows {
                Some(rows) => r <= rows.len(),
                None => r == 0,
            },
    {
        proof {
            use_type_invariant(self);
        }
        self.idx
    }

    /// The identifier of the row at the position: the position itself, as a signed
    /// number. It identifies the row only until another scan starts.
    pub fn rowid(&self) -> (r: i64)
        ensures
            r == self@.idx as i64,
    {
        #[verifier::truncate]
        (self.idx as i64)
    }
}

/// The snapshot has one row for each step of the enumeration that yielded an
/// entry: no row for a step that failed, and none besides.
pub proof fn lemma_row_count(items: Seq<Option<RawEntry>>)
    ensures
        listed(items).len() == items.filter(|o: Option<RawEntry>| o is Some).len(),
        listed(items).len() <= items.len(),
    decreases items.len(),
{
    reveal(Seq::filter);
    if items.len() > 0 {
        lemma_row_count(items.drop_last());
    }
}

/// Where every step of the enumeration yielded an entry, the rows are those
/// entries' rows, one for one and in the same order.
pub proof fn lemma_rows_in_order(items: Seq<Option<RawEntry>>)
    requires
        forall|i: int| 0 <= i < items.len() ==> (#[trigger] items[i]) is Some,
    ensures
        listed(items).len() == items.len(),
        forall|i: int| 0 <= i < items.len() ==> (#[trigger] listed(items)[i]) == mapped(items[i]->0),
    decreases items.len(),
{
    if items.len() > 0 {
        let front = items.drop_last();
        lemma_rows_in_order(front);
        assert forall|i: int| 0 <= i < items.len() implies (#[trigger] listed(items)[i])
            == mapped(items[i]->0) by {
            if i < front.len() {
                assert(listed(front)[i] == mapped(front[i]->0));
            }
        }
    }
}

/// A step that failed leaves no trace in the snapshot; one that yielded an entry
/// adds that entry's row at the end.
pub proof fn lemma_listed_step(items: Seq<Option<RawEntry>>, step: Option<RawEntry>)
    ensures
        listed(items.push(step)) == match step {
            Some(raw) => listed(items).push(mapped(raw)),
            None => listed(items),
        },
{
    assert(items.push(step).drop_last() =~= items);
    match step {
        Some(raw) => {
            assert(listed(items.push(step)) =~= listed(items).push(mapped(raw)));
        },
        None => {},
    }
}

/// A scan that cannot start changes nothing: whatever the cursor held, it still holds.
pub proof fn lemma_failed_filter(before: CursorView, path: Option<Seq<char>>, listing: Listing)
    requires
        path is None || listing is Unreadable,
    ensures
        after_filter(before, path, listing) == before,
{
}

/// A scan depends on the directory and its enumeration alone, not on what the
/// cursor held before. So a second scan of the same directory, with the same
/// enumeration, gives the same rows in the same order as the first.
pub proof fn lemma_filter_idempotent(
    a: CursorView,
    b: CursorView,
    path: Seq<char>,
    items: Vec<Option<RawEntry>>,
)
    ensures
        after_filter(a, Some(path), Listing::Entries(items)) == after_filter(
            b,
            Some(path),
            Listing::Entries(items),
        ),
        after_filter(
            after_filter(a, Some(path), Listing::Entries(items)),
            Some(path),
            Listing::Entries(items),
        ) == after_filter(a, Some(path), Listing::Entries(items)),
{
}

/// A scan that starts leaves the cursor on its first row, or at the end where the
/// directory gave no row; it never leaves it without a scan. A step forward never
/// leaves the state it cannot leave: before the first scan and at the end, `next`
/// changes nothing, and from a row it leads to the next row or to the end.
pub proof fn lemma_transitions(c: CursorView, path: Seq<char>, items: Vec<Option<RawEntry>>)
    requires
        c.rows is Some ==> c.idx <= c.rows->0.len(),
    ensures
        state_of(after_filter(c, Some(path), Listing::Entries(items))) == if listed(
            items@,
        ).len() == 0 {
            CursorState::Exhausted
        } else {
            CursorState::Filtered
        },
        state_of(c) != CursorState::Filtered ==> after_next(c) == c,
        state_of(c) == CursorState::Filtered ==> after_next(c).idx == c.idx + 1 && state_of(
            after_next(c),
        ) != CursorState::Unfiltered,
        after_next(c).rows is Some ==> after_next(c).idx <= after_next(c).rows->0.len(),
{
}

/// Two values that a column may show for the same row are the same value, unless
/// the column is a time that the row has: its text is the calendar's, and goes by
/// the offset of the clock.
pub proof fn lemma_projection_determined(e: EntryView, c: Columns, v: ColumnView, w: ColumnView)
    requires
        shows(e, c, v),
        shows(e, c, w),
        !is_time_column(c) || stamp_of(e, c) is None,
    ensures
        v == w,
{
}

/// A row made without metadata shows a text in each of its three time columns,
/// never null, where its scan time is one that the calendar holds; a clock's
/// time is, unless it is off by hundreds of thousands of years.
pub proof fn lemma_degraded_times_shown(raw: RawEntry, c: Columns, v: ColumnView)
    requires
        raw.metadata is None,
        is_time_column(c),
        shows(mapped(raw), c, v),
    ensures
        stamp_of(mapped(raw), c) == Some(raw.scan_time),
        representable(raw.scan_time.secs, raw.scan_time.nanos) ==> v is Text && is_time_text(
            v->Text_0,
        ),
        FIRST_SECOND <= raw.scan_time.secs <= LAST_SECOND && raw.scan_time.nanos < 1_000_000_000
            ==> v is Text,
{
}

/// What a time column shows for a time is what the calendar prints for it at one
/// offset or another: on a clock whose offset stays the same, the same time shows
/// as the same text.
pub proof fn lemma_time_shown_at_some_offset(t: Timestamp, v: ColumnView)
    requires
        shows_time(Some(t), v),
    ensures
        exists|offset: i32| is_offset(offset) && v == #[trigger] shown_at(t, offset),
{
    if representable(t.secs, t.nanos) {
        let offset = choose|offset: i32|
            is_offset(offset) && v == ColumnView::Text(
                #[trigger] time_text(t.secs, t.nanos, offset),
            );
        assert(v == shown_at(t, offset));
    } else {
        assert(v == shown_at(t, 0));
    }
}

} // verus!
