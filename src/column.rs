//! Typed column buffers whose values may be absent.
use vstd::prelude::*;

use crate::schema::DataType;

verus! {

/// What a column holds: its type and its values in row order, `None` where
/// a value is absent.
pub enum ColumnView {
    Int64(Seq<Option<i64>>),
    Utf8(Seq<Option<Seq<char>>>),
}

impl ColumnView {
    pub open spec fn data_type(self) -> DataType {
        match self {
            ColumnView::Int64(_) => DataType::Int64,
            ColumnView::Utf8(_) => DataType::Utf8,
        }
    }

    pub open spec fn len(self) -> nat {
        match self {
            ColumnView::Int64(v) => v.len(),
            ColumnView::Utf8(v) => v.len(),
        }
    }

    /// Whether the value at `row` is absent.
    pub open spec fn is_null(self, row: int) -> bool {
        match self {
            ColumnView::Int64(v) => v[row] is None,
            ColumnView::Utf8(v) => v[row] is None,
        }
    }

    /// Whether every value is present.
    pub open spec fn has_no_null(self) -> bool {
        forall|row: int| 0 <= row < self.len() ==> !#[trigger] self.is_null(row)
    }
}

pub open spec fn text_opt_view(o: Option<String>) -> Option<Seq<char>> {
    match o {
        Some(s) => Some(s@),
        None => None,
    }
}

/// A fixed-length, single-typed sequence of values, each present or absent.
#[derive(Clone, Debug)]
pub enum Column {
    Int64(Vec<Option<i64>>),
    Utf8(Vec<Option<String>>),
}

impl View for Column {
    type V = ColumnView;

    open spec fn view(&self) -> ColumnView {
        match self {
            Column::Int64(v) => ColumnView::Int64(v@),
            Column::Utf8(v) => ColumnView::Utf8(v@.map_values(|o: Option<String>| text_opt_view(o))),
        }
    }
}

/// The views of a sequence of columns.
pub open spec fn columns_view(cols: Seq<Column>) -> Seq<ColumnView> {
    cols.map_values(|c: Column| c@)
}

/// Makes an Int64 column of the given values; absent values are allowed
/// whatever the schema will say.
pub fn build_int64_column(values: Vec<Option<i64>>) -> (c: Column)
    ensures
        c@ == ColumnView::Int64(values@),
{
    Column::Int64(values)
}

/// Makes a Utf8 column of the given values; absent values are allowed
/// whatever the schema will say.
pub fn build_utf8_column(values: Vec<Option<String>>) -> (c: Column)
    ensures
        c@ == ColumnView::Utf8(values@.map_values(|o: Option<String>| text_opt_view(o))),
{
    Column::Utf8(values)
}

impl Column {
    pub fn data_type(&self) -> (r: DataType)
        ensures
            r == self@.data_type(),
    {
        match self {
            Column::Int64(_) => DataType::Int64,
            Column::Utf8(_) => DataType::Utf8,
        }
    }

    pub fn len(&self) -> (r: usize)
        ensures
            r == self@.len(),
    {
        match self {
            Column::Int64(v) => v.len(),
            Column::Utf8(v) => v.len(),
        }
    }

    pub fn is_null(&self, row: usize) -> (r: bool)
        requires
            row < self@.len(),
        ensures
            r == self@.is_null(row as int),
    {
        match self {
            Column::Int64(v) => v[row].is_none(),
            Column::Utf8(v) => v[row].is_none(),
        }
    }

    /// The first row whose value is absent, if any.
    pub fn first_null(&self) -> (r: Option<usize>)
        ensures
            match r {
                Some(row) => {
                    &&& row < self@.len()
                    &&& self@.is_null(row as int)
                    &&& forall|k: int| 0 <= k < row ==> !#[trigger] self@.is_null(k)
                },
                None => self@.has_no_null(),
            },
    {
        let n = self.len();
        let mut row: usize = 0;
        while row < n
            invariant
                n == self@.len(),
                row <= n,
                forall|k: int| 0 <= k < row ==> !#[trigger] self@.is_null(k),
            decreases n - row,
        {
            if self.is_null(row) {
                return Some(row);
            }
            row += 1;
        }
        None
    }
}

} // verus!
