//! The tabular query result model: tables, their fields and rows.
//!
//! Cell values are JSON values of the wire codec and stay opaque here; the
//! verified logic is the shape of the table and the lookup of cells by row
//! and field name.

use vstd::prelude::*;

verus! {

/// The cell value type of the wire codec, declared so it can stand in
/// fields and signatures. Values of it are opaque to the proofs.
#[verifier::external_type_specification]
#[verifier::external_body]
pub struct ExValue(serde_json::Value);

/// Specifies the order a query result is in.
#[derive(Debug, Clone)]
pub struct Order {
    /// The field ordered on.
    pub field: String,
    /// Whether the field is ordered descending.
    pub desc: bool,
}

/// The datatype of a column in a table.
#[derive(Debug, Clone, Default)]
pub struct FieldType {
    name: String,
}

impl FieldType {
    /// A field type of the given name.
    pub fn new(name: String) -> (r: FieldType)
        ensures
            r.spec_name() == name@,
    {
        FieldType { name }
    }

    /// Returns the name of the field type.
    pub fn name(&self) -> (r: &str)
        ensures
            r@ == self.spec_name(),
    {
        self.name.as_str()
    }

    /// The name of the field type.
    pub closed spec fn spec_name(&self) -> Seq<char> {
        self.name@
    }
}

/// An aggregation applied to a field.
#[derive(Debug)]
pub struct Agg {
    name: String,
    fields: Vec<String>,
    args: Vec<serde_json::Value>,
}

impl Agg {
    /// An aggregation with the given name, fields and arguments.
    pub fn new(name: String, fields: Vec<String>, args: Vec<serde_json::Value>) -> (r: Agg)
        ensures
            r.spec_name() == name@,
            r.spec_fields() == fields.deep_view(),
    {
        Agg { name, fields, args }
    }

    /// Returns the name of the aggregation.
    pub fn name(&self) -> (r: &str)
        ensures
            r@ == self.spec_name(),
    {
        self.name.as_str()
    }

    /// The name of the aggregation.
    pub closed spec fn spec_name(&self) -> Seq<char> {
        self.name@
    }

    /// Returns the fields the aggregation is applied to.
    pub fn fields(&self) -> (r: &[String])
        ensures
            r.deep_view() == self.spec_fields(),
    {
        self.fields.as_slice()
    }

    /// The fields the aggregation is applied to.
    pub closed spec fn spec_fields(&self) -> Seq<Seq<char>> {
        self.fields.deep_view()
    }

    /// The arguments of the aggregation.
    pub closed spec fn spec_args(&self) -> Seq<serde_json::Value> {
        self.args@
    }

    /// Returns the arguments of the aggregation.
    pub fn args(&self) -> (r: &[serde_json::Value])
        ensures
            r@ == self.spec_args(),
    {
        self.args.as_slice()
    }
}

/// A field of a table.
#[derive(Debug)]
pub struct Field {
    name: String,
    typ: FieldType,
    agg: Option<Agg>,
}

impl Field {
    /// A field with the given name, type and optional aggregation.
    pub fn new(name: String, typ: FieldType, agg: Option<Agg>) -> (r: Field)
        ensures
            r.spec_name() == name@,
            r.spec_typ() == typ,
            r.spec_agg() == agg,
    {
        Field { name, typ, agg }
    }

    /// Returns the name of the field.
    pub fn name(&self) -> (r: &str)
        ensures
            r@ == self.spec_name(),
    {
        self.name.as_str()
    }

    /// The name of the field.
    pub closed spec fn spec_name(&self) -> Seq<char> {
        self.name@
    }

    /// The type of the field.
    pub closed spec fn spec_typ(&self) -> FieldType {
        self.typ
    }

    /// Returns the type of the field.
    pub fn typ(&self) -> (r: &FieldType)
        ensures
            *r == self.spec_typ(),
    {
        &self.typ
    }

    /// Whether the field is an aggregate.
    pub closed spec fn spec_agg(&self) -> Option<Agg> {
        self.agg
    }

    /// Returns the aggregation of the field, if it is an aggregate.
    pub fn agg(&self) -> (r: Option<&Agg>)
        ensures
            match r {
                Some(a) => self.spec_agg() == Some(*a),
                None => self.spec_agg() is None,
            },
    {
        self.agg.as_ref()
    }
}

/// The source dataset of a table.
#[derive(Debug)]
pub struct Source {
    name: String,
}

impl Source {
    /// A source of the given name.
    pub fn new(name: String) -> (r: Source)
        ensures
            r.spec_name() == name@,
    {
        Source { name }
    }

    /// Returns the name of the source.
    pub fn name(&self) -> (r: &str)
        ensures
            r@ == self.spec_name(),
    {
        self.name.as_str()
    }

    /// The name of the source.
    pub closed spec fn spec_name(&self) -> Seq<char> {
        self.name@
    }
}

/// A grouping of a table.
#[derive(Debug)]
pub struct Group {
    name: String,
}

impl Group {
    /// A group of the given name.
    pub fn new(name: String) -> (r: Group)
        ensures
            r.spec_name() == name@,
    {
        Group { name }
    }

    /// Returns the name of the group.
    pub fn name(&self) -> (r: &str)
        ensures
            r@ == self.spec_name(),
    {
        self.name.as_str()
    }

    /// The name of the group.
    pub closed spec fn spec_name(&self) -> Seq<char> {
        self.name@
    }
}

/// The range over which a field is queried, in Unix seconds.
#[derive(Debug, Clone)]
pub struct Range {
    field: String,
    start: i64,
    end: i64,
}

impl Range {
    /// A range of the given field and bounds.
    pub fn new(field: String, start: i64, end: i64) -> (r: Range)
        ensures
            r.spec_field() == field@,
            r.spec_start() == start,
            r.spec_end() == end,
    {
        Range { field, start, end }
    }

    /// The field of the range.
    pub closed spec fn spec_field(&self) -> Seq<char> {
        self.field@
    }

    /// The start of the range.
    pub closed spec fn spec_start(&self) -> i64 {
        self.start
    }

    /// The end of the range.
    pub closed spec fn spec_end(&self) -> i64 {
        self.end
    }

    /// Returns the field of the range.
    pub fn field(&self) -> (r: &str)
        ensures
            r@ == self.spec_field(),
    {
        self.field.as_str()
    }

    /// Returns the start of the range.
    pub fn start(&self) -> (r: i64)
        ensures
            r == self.spec_start(),
    {
        self.start
    }

    /// Returns the end of the range.
    pub fn end(&self) -> (r: i64)
        ensures
            r == self.spec_end(),
    {
        self.end
    }
}

/// The bucketing applied to a table.
#[derive(Debug, Clone)]
pub struct Bucket {
    field: String,
    size: u64,
}

impl Bucket {
    /// A bucket on the given field and size.
    pub fn new(field: String, size: u64) -> (r: Bucket)
        ensures
            r.spec_field() == field@,
            r.spec_size() == size,
    {
        Bucket { field, size }
    }

    /// The field of the bucket.
    pub closed spec fn spec_field(&self) -> Seq<char> {
        self.field@
    }

    /// The size of the bucket.
    pub closed spec fn spec_size(&self) -> u64 {
        self.size
    }

    /// Returns the field of the bucket.
    pub fn field(&self) -> (r: &str)
        ensures
            r@ == self.spec_field(),
    {
        self.field.as_str()
    }

    /// Returns the size of the bucket.
    pub fn size(&self) -> (r: u64)
        ensures
            r == self.spec_size(),
    {
        self.size
    }
}

/// A table in a query result: named columns of opaque cell values.
#[derive(Debug)]
pub struct Table {
    name: String,
    sources: Vec<Source>,
    fields: Vec<Field>,
    order: Vec<Order>,
    groups: Vec<Group>,
    range: Option<Range>,
    buckets: Option<Bucket>,
    columns: Vec<Vec<serde_json::Value>>,
}

/// The first index of a field with the given name, if any.
pub open spec fn spec_field_index(fields: Seq<Field>, name: Seq<char>, i: int) -> Option<int>
    decreases fields.len() - i,
{
    if i < 0 || i >= fields.len() {
        None
    } else if fields[i].spec_name() == name {
        Some(i)
    } else {
        spec_field_index(fields, name, i + 1)
    }
}

impl Table {
    /// Assembles a table from its parts.
    pub fn new(
        name: String,
        sources: Vec<Source>,
        fields: Vec<Field>,
        order: Vec<Order>,
        groups: Vec<Group>,
        range: Option<Range>,
        buckets: Option<Bucket>,
        columns: Vec<Vec<serde_json::Value>>,
    ) -> (r: Table)
        ensures
            r.spec_name() == name@,
            r.spec_sources() == sources@,
            r.spec_fields() == fields@,
            r.spec_order() == order@,
            r.spec_groups() == groups@,
            r.spec_range() == range,
            r.spec_buckets() == buckets,
            r.spec_columns() == columns@,
    {
        Table { name, sources, fields, order, groups, range, buckets, columns }
    }

    /// The name of the table.
    pub closed spec fn spec_name(&self) -> Seq<char> {
        self.name@
    }

    /// The fields of the table.
    pub closed spec fn spec_fields(&self) -> Seq<Field> {
        self.fields@
    }

    /// The columns of the table.
    pub closed spec fn spec_columns(&self) -> Seq<Vec<serde_json::Value>> {
        self.columns@
    }

    /// The number of rows: the length of the first column.
    pub open spec fn spec_len(&self) -> nat {
        if self.spec_columns().len() == 0 {
            0
        } else {
            self.spec_columns()[0]@.len()
        }
    }

    /// Returns the name of the table.
    pub fn name(&self) -> (r: &str)
        ensures
            r@ == self.spec_name(),
    {
        self.name.as_str()
    }

    /// The sources of the table.
    pub closed spec fn spec_sources(&self) -> Seq<Source> {
        self.sources@
    }

    /// Returns the sources of the table.
    pub fn sources(&self) -> (r: &[Source])
        ensures
            r@ == self.spec_sources(),
    {
        self.sources.as_slice()
    }

    /// Returns the fields of the table.
    pub fn fields(&self) -> (r: &[Field])
        ensures
            r@ == self.spec_fields(),
    {
        self.fields.as_slice()
    }

    /// The order of the table.
    pub closed spec fn spec_order(&self) -> Seq<Order> {
        self.order@
    }

    /// Returns the order of the table.
    pub fn order(&self) -> (r: &[Order])
        ensures
            r@ == self.spec_order(),
    {
        self.order.as_slice()
    }

    /// The groups of the table.
    pub closed spec fn spec_groups(&self) -> Seq<Group> {
        self.groups@
    }

    /// Returns the groups of the table.
    pub fn groups(&self) -> (r: &[Group])
        ensures
            r@ == self.spec_groups(),
    {
        self.groups.as_slice()
    }

    /// The range of the table.
    pub closed spec fn spec_range(&self) -> Option<Range> {
        self.range
    }

    /// Returns the range of the table.
    pub fn range(&self) -> (r: Option<&Range>)
        ensures
            match r {
                Some(g) => self.spec_range() == Some(*g),
                None => self.spec_range() is None,
            },
    {
        self.range.as_ref()
    }

    /// The buckets of the table.
    pub closed spec fn spec_buckets(&self) -> Option<Bucket> {
        self.buckets
    }

    /// Returns the buckets of the table.
    pub fn buckets(&self) -> (r: Option<&Bucket>)
        ensures
            match r {
                Some(b) => self.spec_buckets() == Some(*b),
                None => self.spec_buckets() is None,
            },
    {
        self.buckets.as_ref()
    }

    /// Returns the columns of the table.
    pub fn columns(&self) -> (r: &[Vec<serde_json::Value>])
        ensures
            r@ == self.spec_columns(),
    {
        self.columns.as_slice()
    }

    /// Returns the number of rows: the length of the first column.
    pub fn len(&self) -> (r: usize)
        ensures
            r == self.spec_len(),
    {
        if self.columns.len() == 0 {
            0
        } else {
            self.columns[0].len()
        }
    }

    /// Returns true if the table holds no rows.
    pub fn is_empty(&self) -> (r: bool)
        ensures
            r == (self.spec_len() == 0),
    {
        self.len() == 0
    }

    /// Returns the row at the given index, when it is in range.
    pub fn get_row(&self, row: usize) -> (r: Option<Row<'_>>)
        ensures
            match r {
                Some(rw) => row < self.spec_len() && rw.spec_row() == row && rw.spec_table()
                    == *self,
                None => row >= self.spec_len(),
            },
    {
        if self.len() > row {
            Some(Row { table: self, row })
        } else {
            None
        }
    }

    /// Returns an iterator over the rows.
    pub fn iter(&self) -> (r: RowIter<'_>)
        ensures
            r.spec_table() == *self,
            r.spec_row() == 0,
    {
        RowIter { table: self, row: 0 }
    }
}

/// An iterator over the rows of a table.
pub struct RowIter<'table> {
    table: &'table Table,
    row: usize,
}

impl<'table> RowIter<'table> {
    /// The table iterated over.
    pub closed spec fn spec_table(&self) -> Table {
        *self.table
    }

    /// The next row index.
    pub closed spec fn spec_row(&self) -> nat {
        self.row as nat
    }

    /// Returns the next row, advancing the iterator.
    pub fn next(&mut self) -> (r: Option<Row<'table>>)
        ensures
            final(self).spec_table() == old(self).spec_table(),
            match r {
                Some(rw) => {
                    &&& old(self).spec_row() < old(self).spec_table().spec_len()
                    &&& rw.spec_row() == old(self).spec_row()
                    &&& rw.spec_table() == old(self).spec_table()
                    &&& final(self).spec_row() == old(self).spec_row() + 1
                },
                None => {
                    &&& old(self).spec_row() >= old(self).spec_table().spec_len()
                    &&& final(self).spec_row() == old(self).spec_row()
                },
            },
    {
        let n = self.table.len();
        if self.row < n {
            let row = self.table.get_row(self.row);
            self.row = self.row + 1;
            row
        } else {
            None
        }
    }
}

/// A row in a table.
pub struct Row<'table> {
    table: &'table Table,
    row: usize,
}

impl<'table> Row<'table> {
    /// The table the row belongs to.
    pub closed spec fn spec_table(&self) -> Table {
        *self.table
    }

    /// The index of the row.
    pub closed spec fn spec_row(&self) -> nat {
        self.row as nat
    }

    /// Returns the cell of the row in the given column, when both are in
    /// range.
    pub fn get(&self, column: usize) -> (r: Option<&'table serde_json::Value>)
        ensures
            match r {
                Some(v) => column < self.spec_table().spec_columns().len() && self.spec_row()
                    < self.spec_table().spec_columns()[column as int]@.len() && *v
                    == self.spec_table().spec_columns()[column as int]@[self.spec_row() as int],
                None => column >= self.spec_table().spec_columns().len() || self.spec_row()
                    >= self.spec_table().spec_columns()[column as int]@.len(),
            },
    {
        if column < self.table.columns.len() {
            let col = &self.table.columns[column];
            if self.row < col.len() {
                Some(&col[self.row])
            } else {
                None
            }
        } else {
            None
        }
    }

    /// Returns the cell of the row under the first field with the given
    /// name, when such a field exists and the cell is in range.
    pub fn get_field(&self, field: &str) -> (r: Option<&'table serde_json::Value>)
        ensures
            ({
                let idx = spec_field_index(self.spec_table().spec_fields(), field@, 0);
                match r {
                    Some(v) => idx matches Some(i) && i
                        < self.spec_table().spec_columns().len() && self.spec_row()
                        < self.spec_table().spec_columns()[i]@.len() && *v
                        == self.spec_table().spec_columns()[i]@[self.spec_row() as int],
                    None => idx is None || (idx matches Some(i) && (i
                        >= self.spec_table().spec_columns().len() || self.spec_row()
                        >= self.spec_table().spec_columns()[i]@.len())),
                }
            }),
    {
        let fields = &self.table.fields;
        let n = fields.len();
        let mut i: usize = 0;
        let target: String = field.to_owned();
        while i < n
            invariant
                0 <= i <= n == self.spec_table().spec_fields().len(),
                target@ == field@,
                fields@ == self.spec_table().spec_fields(),
                spec_field_index(self.spec_table().spec_fields(), field@, 0) == spec_field_index(
                    self.spec_table().spec_fields(),
                    field@,
                    i as int,
                ),
            decreases n - i,
        {
            if fields[i].name.eq(&target) {
                return self.get(i);
            }
            i = i + 1;
        }
        None
    }

    /// Returns the fields of the row's table.
    pub fn fields(&self) -> (r: &'table [Field])
        ensures
            r@ == self.spec_table().spec_fields(),
    {
        self.table.fields.as_slice()
    }

    /// Returns an iterator over the cells of the row.
    pub fn iter(&self) -> (r: FieldIter<'table>)
        ensures
            r.spec_table() == self.spec_table(),
            r.spec_row() == self.spec_row(),
            r.spec_index() == 0,
    {
        FieldIter { table: self.table, row: self.row, index: 0 }
    }
}

/// An iterator over the cells of one row.
pub struct FieldIter<'table> {
    table: &'table Table,
    row: usize,
    index: usize,
}

impl<'table> FieldIter<'table> {
    /// The table iterated over.
    pub closed spec fn spec_table(&self) -> Table {
        *self.table
    }

    /// The index of the row.
    pub closed spec fn spec_row(&self) -> nat {
        self.row as nat
    }

    /// The next column index.
    pub closed spec fn spec_index(&self) -> nat {
        self.index as nat
    }

    /// Returns the next cell, advancing the iterator: the cell when the
    /// column holds the row, else nothing for that column.
    pub fn next(&mut self) -> (r: Option<Option<&'table serde_json::Value>>)
        ensures
            final(self).spec_table() == old(self).spec_table(),
            final(self).spec_row() == old(self).spec_row(),
            match r {
                Some(cell) => {
                    &&& old(self).spec_index() < old(self).spec_table().spec_columns().len()
                    &&& final(self).spec_index() == old(self).spec_index() + 1
                    &&& match cell {
                        Some(v) => old(self).spec_row() < old(self).spec_table().spec_columns()[old(
                            self,
                        ).spec_index() as int]@.len() && *v == old(
                            self,
                        ).spec_table().spec_columns()[old(self).spec_index() as int]@[old(
                            self,
                        ).spec_row() as int],
                        None => old(self).spec_row() >= old(self).spec_table().spec_columns()[old(
                            self,
                        ).spec_index() as int]@.len(),
                    }
                },
                None => {
                    &&& old(self).spec_index() >= old(self).spec_table().spec_columns().len()
                    &&& final(self).spec_index() == old(self).spec_index()
                },
            },
    {
        if self.index >= self.table.columns.len() {
            return None;
        }
        let col = &self.table.columns[self.index];
        let value: Option<&'table serde_json::Value> = if self.row < col.len() {
            Some(&col[self.row])
        } else {
            None
        };
        self.index = self.index + 1;
        Some(value)
    }
}

} // verus!
