//! The output of a projection: an ordered record of named fields, some of
//! which hold tables of rows.

use vstd::prelude::*;

verus! {

/// A single typed value.
#[derive(Clone, Debug, PartialEq, Eq)]
pub enum Scalar {
    /// A piece of text.
    Text(String),
    /// A size in bytes.
    Size(i64),
    /// A point in time, in whole seconds since 1970-01-01T00:00:00Z.
    Date(i64),
}

/// What a [`Scalar`] stands for.
pub enum ScalarView {
    Text(Seq<char>),
    Size(int),
    Date(int),
}

impl View for Scalar {
    type V = ScalarView;

    open spec fn view(&self) -> ScalarView {
        match self {
            Scalar::Text(s) => ScalarView::Text(s@),
            Scalar::Size(n) => ScalarView::Size(*n as int),
            Scalar::Date(t) => ScalarView::Date(*t as int),
        }
    }
}

/// What a [`Row`] stands for: its cells, each a name and a value, in order.
pub type RowView = Seq<(Seq<char>, ScalarView)>;

/// One row of a table: named values in a fixed order.
#[derive(Clone, Debug, PartialEq, Eq)]
pub struct Row {
    pub cells: Vec<(String, Scalar)>,
}

impl View for Row {
    type V = RowView;

    open spec fn view(&self) -> RowView {
        self.cells@.map_values(|c: (String, Scalar)| (c.0@, c.1@))
    }
}

/// The rows of a table, each by what it stands for.
pub open spec fn rows_view(rows: Seq<Row>) -> Seq<RowView> {
    rows.map_values(|r: Row| r@)
}

/// The value of one field of a record.
#[derive(Clone, Debug, PartialEq, Eq)]
pub enum Field {
    /// A single value.
    Value(Scalar),
    /// A list of rows.
    Table(Vec<Row>),
}

/// What a [`Field`] stands for.
pub enum FieldView {
    Value(ScalarView),
    Table(Seq<RowView>),
}

impl View for Field {
    type V = FieldView;

    open spec fn view(&self) -> FieldView {
        match self {
            Field::Value(v) => FieldView::Value(v@),
            Field::Table(rows) => FieldView::Table(rows_view(rows@)),
        }
    }
}

/// What an [`OutputRecord`] stands for: its fields, each a name and a value,
/// in order.
pub type RecordView = Seq<(Seq<char>, FieldView)>;

/// The record that a projection yields.
#[derive(Clone, Debug, PartialEq, Eq)]
pub struct OutputRecord {
    pub fields: Vec<(String, Field)>,
}

impl View for OutputRecord {
    type V = RecordView;

    open spec fn view(&self) -> RecordView {
        self.fields@.map_values(|f: (String, Field)| (f.0@, f.1@))
    }
}

/// The position of the first entry named `key`, or the number of entries if
/// there is none.
pub open spec fn first_index<V>(entries: Seq<(Seq<char>, V)>, key: Seq<char>) -> int
    decreases entries.len(),
{
    if entries.len() == 0 {
        0
    } else if entries[0].0 == key {
        0
    } else {
        1 + first_index(entries.drop_first(), key)
    }
}

/// Whether an entry named `key` exists.
pub open spec fn has_key<V>(entries: Seq<(Seq<char>, V)>, key: Seq<char>) -> bool {
    exists|i: int| 0 <= i < entries.len() && (#[trigger] entries[i]).0 == key
}

/// `first_index` is in range exactly when the key occurs, points at an entry
/// of that name, and no earlier entry bears it.
pub proof fn first_index_is_first<V>(entries: Seq<(Seq<char>, V)>, key: Seq<char>)
    ensures
        0 <= first_index(entries, key) <= entries.len(),
        first_index(entries, key) < entries.len() <==> has_key(entries, key),
        first_index(entries, key) < entries.len() ==> entries[first_index(entries, key)].0 == key,
        forall|j: int| 0 <= j < first_index(entries, key) ==> (#[trigger] entries[j]).0 != key,
    decreases entries.len(),
{
    if entries.len() == 0 {
    } else if entries[0].0 == key {
    } else {
        let rest = entries.drop_first();
        first_index_is_first(rest, key);
        let k = first_index(rest, key);
        assert forall|j: int| 0 <= j < 1 + k implies (#[trigger] entries[j]).0 != key by {
            if j > 0 {
                assert(rest[j - 1] == entries[j]);
            }
        }
        if k < rest.len() {
            assert(entries[1 + k] == rest[k]);
        }
        if has_key(entries, key) {
            let i = choose|i: int| 0 <= i < entries.len() && (#[trigger] entries[i]).0 == key;
            assert(rest[i - 1] == entries[i]);
        }
    }
}

impl Row {
    /// A row without cells.
    pub fn new() -> (r: Row)
        ensures
            r@ == Seq::<(Seq<char>, ScalarView)>::empty(),
    {
        let r = Row { cells: Vec::new() };
        assert(r@ =~= Seq::<(Seq<char>, ScalarView)>::empty());
        r
    }

    /// Appends a cell.
    pub fn push(&mut self, name: &str, value: Scalar)
        ensures
            final(self)@ == old(self)@.push((name@, value@)),
    {
        self.cells.push((String::from_str(name), value));
        assert(self@ =~= old(self)@.push((name@, value@)));
    }

    /// The number of cells.
    pub fn len(&self) -> (n: usize)
        ensures
            n == self@.len(),
    {
        self.cells.len()
    }

    /// The value of the first cell named `name`.
    pub fn get(&self, name: &str) -> (r: Option<&Scalar>)
        ensures
            r is Some <==> has_key(self@, name@),
            r matches Some(v) ==> v@ == self@[first_index(self@, name@)].1,
    {
        let wanted = String::from_str(name);
        let mut i: usize = 0;
        proof {
            first_index_is_first(self@, name@);
        }
        while i < self.cells.len()
            invariant
                i <= self.cells.len(),
                wanted@ == name@,
                forall|j: int| 0 <= j < i ==> (#[trigger] self@[j]).0 != name@,
                0 <= first_index(self@, name@) <= self@.len(),
                first_index(self@, name@) < self@.len() <==> has_key(self@, name@),
                first_index(self@, name@) < self@.len() ==> self@[first_index(
                    self@,
                    name@,
                )].0 == name@,
                forall|j: int|
                    0 <= j < first_index(self@, name@) ==> (#[trigger] self@[j]).0 != name@,
            decreases self.cells.len() - i,
        {
            if self.cells[i].0 == wanted {
                assert(self@[i as int].0 == name@);
                assert(first_index(self@, name@) == i);
                return Some(&self.cells[i].1);
            }
            assert(self@[i as int].0 != name@);
            i += 1;
        }
        None
    }
}

impl OutputRecord {
    /// A record without fields.
    pub fn new() -> (r: OutputRecord)
        ensures
            r@ == Seq::<(Seq<char>, FieldView)>::empty(),
    {
        let r = OutputRecord { fields: Vec::new() };
        assert(r@ =~= Seq::<(Seq<char>, FieldView)>::empty());
        r
    }

    /// Appends a field.
    pub fn push(&mut self, name: &str, field: Field)
        ensures
            final(self)@ == old(self)@.push((name@, field@)),
    {
        self.fields.push((String::from_str(name), field));
        assert(self@ =~= old(self)@.push((name@, field@)));
    }

    /// The number of fields.
    pub fn len(&self) -> (n: usize)
        ensures
            n == self@.len(),
    {
        self.fields.len()
    }

    /// The value of the first field named `name`.
    pub fn get(&self, name: &str) -> (r: Option<&Field>)
        ensures
            r is Some <==> has_key(self@, name@),
            r matches Some(f) ==> f@ == self@[first_index(self@, name@)].1,
    {
        let wanted = String::from_str(name);
        let mut i: usize = 0;
        proof {
            first_index_is_first(self@, name@);
        }
        while i < self.fields.len()
            invariant
                i <= self.fields.len(),
                wanted@ == name@,
                forall|j: int| 0 <= j < i ==> (#[trigger] self@[j]).0 != name@,
                0 <= first_index(self@, name@) <= self@.len(),
                first_index(self@, name@) < self@.len() <==> has_key(self@, name@),
                first_index(self@, name@) < self@.len() ==> self@[first_index(
                    self@,
                    name@,
                )].0 == name@,
                forall|j: int|
                    0 <= j < first_index(self@, name@) ==> (#[trigger] self@[j]).0 != name@,
            decreases self.fields.len() - i,
        {
            if self.fields[i].0 == wanted {
                assert(self@[i as int].0 == name@);
                assert(first_index(self@, name@) == i);
                return Some(&self.fields[i].1);
            }
            assert(self@[i as int].0 != name@);
            i += 1;
        }
        None
    }

    /// Whether the record has a field named `name`.
    pub fn has(&self, name: &str) -> (b: bool)
        ensures
            b == has_key(self@, name@),
    {
        self.get(name).is_some()
    }
}

} // verus!
