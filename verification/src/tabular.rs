//! The tabular backend: one row of text fields that is written out at every
//! change of time, each field keeping its last value until it is overwritten.

use vstd::prelude::*;
use vstd::string::StringExecFns;
use crate::text::{seconds_decimal, seconds_text};

verus! {

/// One column as contracts see it: the name of the metric and the text that
/// its field holds now.
pub struct ColumnModel {
    pub name: Seq<char>,
    pub text: Seq<char>,
}

/// The backend as contracts see it.
pub struct TabularModel {
    /// The columns in the order of registration.
    pub columns: Seq<ColumnModel>,
    /// Whether any field was ever written.
    pub has_data: bool,
    /// Whether the header has gone out.
    pub header_written: bool,
    /// The time cursor, in nanoseconds.
    pub time: u64,
}

impl TabularModel {
    /// The backend before anything was registered.
    pub open spec fn empty() -> Self {
        TabularModel { columns: Seq::empty(), has_data: false, header_written: false, time: 0 }
    }

    /// A new column with an empty field is added at the end.
    pub open spec fn register(self, name: Seq<char>) -> Self {
        TabularModel {
            columns: self.columns.push(ColumnModel { name, text: Seq::empty() }),
            ..self
        }
    }

    /// The field of column `id` is overwritten and the row counts as holding
    /// data. An `id` past the last column changes nothing.
    pub open spec fn update(self, id: int, text: Seq<char>) -> Self {
        if 0 <= id < self.columns.len() {
            TabularModel {
                columns: self.columns.update(
                    id,
                    ColumnModel { name: self.columns[id].name, text },
                ),
                has_data: true,
                ..self
            }
        } else {
            self
        }
    }

    /// The header: `time`, then the name of every column.
    pub open spec fn header(self) -> Seq<Seq<char>> {
        seq!["time"@] + Seq::new(self.columns.len(), |i: int| self.columns[i].name)
    }

    /// The current row: the time cursor in seconds, then the text of every field.
    pub open spec fn row(self) -> Seq<Seq<char>> {
        seq![seconds_decimal(self.time as nat)] + Seq::new(
            self.columns.len(),
            |i: int| self.columns[i].text,
        )
    }

    /// The records that a flush writes: none while no field was ever
    /// written; otherwise the current row, with the header before it if the
    /// header has not gone out yet.
    pub open spec fn records(self) -> Seq<Seq<Seq<char>>> {
        if !self.has_data {
            Seq::empty()
        } else if !self.header_written {
            seq![self.header(), self.row()]
        } else {
            seq![self.row()]
        }
    }

    /// The backend after a flush: the header has gone out if anything was
    /// written; the fields and the data flag stay as they are.
    pub open spec fn flushed(self) -> Self {
        TabularModel { header_written: self.header_written || self.has_data, ..self }
    }

    /// The backend after the time cursor has moved: flushed, then at time `nanos`.
    pub open spec fn advanced(self, nanos: u64) -> Self {
        TabularModel { time: nanos, ..self.flushed() }
    }
}

/// The text of each field of a record.
pub open spec fn texts(fields: Seq<String>) -> Seq<Seq<char>> {
    Seq::new(fields.len(), |i: int| fields[i]@)
}

/// The text of each field of each record.
pub open spec fn tables(records: Seq<Vec<String>>) -> Seq<Seq<Seq<char>>> {
    Seq::new(records.len(), |i: int| texts(records[i]@))
}

/// The fields of a record on one line, with a comma between neighbours.
pub open spec fn joined(fields: Seq<Seq<char>>) -> Seq<char>
    decreases fields.len(),
{
    if fields.len() == 0 {
        Seq::empty()
    } else if fields.len() == 1 {
        fields[0]
    } else {
        joined(fields.drop_last()) + seq![','] + fields.last()
    }
}

/// One column: the name of the metric and the text of its field.
pub struct Column {
    name: String,
    text: String,
}

impl View for Column {
    type V = ColumnModel;

    closed spec fn view(&self) -> ColumnModel {
        ColumnModel { name: self.name@, text: self.text@ }
    }
}

/// The tabular backend.
pub struct Tabular {
    columns: Vec<Column>,
    has_data: bool,
    header_written: bool,
    time: u64,
}

impl View for Tabular {
    type V = TabularModel;

    closed spec fn view(&self) -> TabularModel {
        TabularModel {
            columns: Seq::new(self.columns@.len(), |i: int| self.columns@[i]@),
            has_data: self.has_data,
            header_written: self.header_written,
            time: self.time,
        }
    }
}

impl Tabular {
    /// A backend without columns, at time zero.
    pub fn new() -> (backend: Self)
        ensures
            backend@ == TabularModel::empty(),
    {
        let backend = Tabular {
            columns: Vec::new(),
            has_data: false,
            header_written: false,
            time: 0,
        };
        assert(backend@.columns =~= Seq::empty());
        backend
    }

    /// The number of columns.
    pub fn len(&self) -> (n: usize)
        ensures
            n == self@.columns.len(),
    {
        self.columns.len()
    }

    /// Whether any field was ever written.
    pub fn has_data(&self) -> (flag: bool)
        ensures
            flag == self@.has_data,
    {
        self.has_data
    }

    /// Whether the header has gone out.
    pub fn header_written(&self) -> (flag: bool)
        ensures
            flag == self@.header_written,
    {
        self.header_written
    }

    /// The time cursor, in nanoseconds.
    pub fn time(&self) -> (nanos: u64)
        ensures
            nanos == self@.time,
    {
        self.time
    }

    /// Adds a column for a newly registered metric, its field empty.
    pub fn register(&mut self, name: &str)
        ensures
            final(self)@ == old(self)@.register(name@),
    {
        self.columns.push(Column { name: name.to_owned(), text: String::new() });
        assert(self@.columns =~= old(self)@.register(name@).columns);
    }

    /// Writes `text` into the field of column `id`; a later write before the
    /// next flush replaces it. An `id` past the last column is ignored.
    pub fn update(&mut self, id: usize, text: String)
        ensures
            final(self)@ == old(self)@.update(id as int, text@),
    {
        if id < self.columns.len() {
            let name = self.columns[id].name.clone();
            self.columns.set(id, Column { name, text });
            self.has_data = true;
            assert(self@.columns =~= old(self)@.update(id as int, text@).columns);
        }
    }

    /// The header as a record.
    pub fn header(&self) -> (fields: Vec<String>)
        ensures
            texts(fields@) == self@.header(),
    {
        let mut fields: Vec<String> = Vec::new();
        fields.push("time".to_owned());
        let mut i: usize = 0;
        while i < self.columns.len()
            invariant
                i <= self.columns@.len(),
                fields@.len() == i + 1,
                fields@[0]@ == "time"@,
                forall|k: int| 0 <= k < i ==> (#[trigger] fields@[k + 1])@ == self.columns@[k]@.name,
            decreases self.columns@.len() - i,
        {
            fields.push(self.columns[i].name.clone());
            i = i + 1;
        }
        assert forall|j: int| 0 <= j < fields@.len() implies texts(fields@)[j]
            == self@.header()[j] by {
            if j > 0 {
                assert(fields@[(j - 1) + 1]@ == self.columns@[j - 1]@.name);
            }
        }
        assert(texts(fields@) =~= self@.header());
        fields
    }

    /// The current row as a record.
    pub fn row(&self) -> (fields: Vec<String>)
        ensures
            texts(fields@) == self@.row(),
    {
        let mut fields: Vec<String> = Vec::new();
        fields.push(seconds_text(self.time));
        let mut i: usize = 0;
        while i < self.columns.len()
            invariant
                i <= self.columns@.len(),
                fields@.len() == i + 1,
                fields@[0]@ == seconds_decimal(self.time as nat),
                forall|k: int| 0 <= k < i ==> (#[trigger] fields@[k + 1])@ == self.columns@[k]@.text,
            decreases self.columns@.len() - i,
        {
            fields.push(self.columns[i].text.clone());
            i = i + 1;
        }
        assert forall|j: int| 0 <= j < fields@.len() implies texts(fields@)[j]
            == self@.row()[j] by {
            if j > 0 {
                assert(fields@[(j - 1) + 1]@ == self.columns@[j - 1]@.text);
            }
        }
        assert(texts(fields@) =~= self@.row());
        fields
    }

    /// Flushes the row: returns the records to write, in order, and marks
    /// the header as gone out if it is among them. Nothing is written while
    /// no field was ever written.
    pub fn flush(&mut self) -> (records: Vec<Vec<String>>)
        ensures
            tables(records@) == old(self)@.records(),
            final(self)@ == old(self)@.flushed(),
    {
        let mut records: Vec<Vec<String>> = Vec::new();
        if self.has_data {
            if !self.header_written {
                records.push(self.header());
                self.header_written = true;
            }
            records.push(self.row());
        }
        assert(tables(records@) =~= old(self)@.records());
        records
    }

    /// Moves the time cursor to `nanos` nanoseconds, after a flush of the
    /// row at the time before.
    pub fn set_time(&mut self, nanos: u64) -> (records: Vec<Vec<String>>)
        ensures
            tables(records@) == old(self)@.records(),
            final(self)@ == old(self)@.advanced(nanos),
    {
        let records = self.flush();
        self.time = nanos;
        records
    }
}

/// While no field was ever written, a flush writes nothing, and neither a
/// registration nor a change of time makes the row count as holding data.
pub proof fn lemma_no_rows_before_data(t: TabularModel, name: Seq<char>, nanos: u64)
    requires
        !t.has_data,
    ensures
        t.records().len() == 0,
        t.flushed() == t,
        !t.advanced(nanos).has_data,
        !t.advanced(nanos).header_written == !t.header_written,
        !t.register(name).has_data,
{
}

/// A flush or a change of time leaves every field and the data flag as they
/// are: a field keeps its text from row to row until it is overwritten. Once
/// a row has gone out, each later flush writes exactly one row and no header.
pub proof fn lemma_fields_are_sticky(t: TabularModel, nanos: u64)
    ensures
        t.advanced(nanos).columns == t.columns,
        t.advanced(nanos).has_data == t.has_data,
        t.advanced(nanos).row().drop_first() == t.row().drop_first(),
        t.has_data ==> t.advanced(nanos).records() == seq![t.advanced(nanos).row()],
        t.has_data ==> t.records().last() == t.row(),
{
    assert(t.advanced(nanos).row().drop_first() =~= t.row().drop_first());
}

/// Of two writes to one field before a flush, the later one stays.
pub proof fn lemma_last_write_wins(t: TabularModel, id: int, first: Seq<char>, second: Seq<char>)
    ensures
        t.update(id, first).update(id, second) == t.update(id, second),
{
    assert(t.update(id, first).update(id, second).columns =~= t.update(id, second).columns);
}

/// One record as a line of comma-separated values, without a line end.
pub fn record_line(fields: &Vec<String>) -> (line: String)
    ensures
        line@ == joined(texts(fields@)),
{
    let mut line = String::new();
    let mut i: usize = 0;
    while i < fields.len()
        invariant
            i <= fields@.len(),
            line@ == joined(texts(fields@).subrange(0, i as int)),
        decreases fields@.len() - i,
    {
        let ghost done = texts(fields@).subrange(0, i as int);
        let ghost next = texts(fields@).subrange(0, i + 1);
        proof {
            assert(next.drop_last() =~= done);
            assert(next.last() == fields@[i as int]@);
            reveal_strlit(",");
        }
        if i > 0 {
            line.append(",");
        }
        line.append(fields[i].as_str());
        proof {
            if i == 0 {
                assert(line@ =~= next[0]);
            } else {
                assert(line@ =~= joined(done) + seq![','] + next.last());
            }
        }
        i = i + 1;
    }
    assert(texts(fields@).subrange(0, fields@.len() as int) =~= texts(fields@));
    line
}

} // verus!
