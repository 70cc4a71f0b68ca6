//! Assembly of columns against a schema into a record batch.
use vstd::prelude::*;
use vstd::string::*;

use crate::column::{columns_view, Column, ColumnView};
use crate::render::{nat_text, push_nat};
use crate::schema::{arrow_type_label, type_label, DataType, FieldView, Schema};

verus! {

/// Why a set of columns does not fit a schema.
#[derive(Clone, Copy, Debug, PartialEq, Eq, Structural)]
pub enum AssemblyError {
    /// The number of columns differs from the number of fields.
    ArityMismatch { expected: usize, actual: usize },
    /// Column `index` holds another type than its field declares.
    TypeMismatch { index: usize, expected: DataType, actual: DataType },
    /// Column `index` has an absent value at `row` though its field forbids it.
    NullabilityViolation { index: usize, row: usize },
    /// Column `index` has another length than the first column.
    RowCountMismatch { index: usize, expected: usize, actual: usize },
}

pub open spec fn arity_ok(f: Seq<FieldView>, c: Seq<ColumnView>) -> bool {
    c.len() == f.len()
}

pub open spec fn type_ok(f: Seq<FieldView>, c: Seq<ColumnView>, i: int) -> bool {
    c[i].data_type() == f[i].data_type
}

pub open spec fn null_ok(f: Seq<FieldView>, c: Seq<ColumnView>, i: int) -> bool {
    f[i].nullable || c[i].has_no_null()
}

pub open spec fn rows_ok(c: Seq<ColumnView>, i: int) -> bool {
    c[i].len() == c[0].len()
}

pub open spec fn types_ok_below(f: Seq<FieldView>, c: Seq<ColumnView>, n: int) -> bool {
    forall|i: int| 0 <= i < n ==> #[trigger] type_ok(f, c, i)
}

pub open spec fn nulls_ok_below(f: Seq<FieldView>, c: Seq<ColumnView>, n: int) -> bool {
    forall|i: int| 0 <= i < n ==> #[trigger] null_ok(f, c, i)
}

pub open spec fn rows_ok_below(c: Seq<ColumnView>, n: int) -> bool {
    forall|i: int| 0 <= i < n ==> #[trigger] rows_ok(c, i)
}

/// The invariants of a record batch: one column per field, each of its
/// field's type, without absent values where the field forbids them, and all
/// of one length.
pub open spec fn batch_invariants(f: Seq<FieldView>, c: Seq<ColumnView>) -> bool {
    &&& arity_ok(f, c)
    &&& types_ok_below(f, c, c.len() as int)
    &&& nulls_ok_below(f, c, c.len() as int)
    &&& rows_ok_below(c, c.len() as int)
}

/// Whether `e` reports the first check that fails, taking the checks in
/// order: the column count, then each column's type from the left, then each
/// column's absent values from the left and, within one column, from the
/// top, then each column's length against the first.
pub open spec fn is_first_failure(f: Seq<FieldView>, c: Seq<ColumnView>, e: AssemblyError) -> bool {
    match e {
        AssemblyError::ArityMismatch { expected, actual } => {
            &&& !arity_ok(f, c)
            &&& expected == f.len()
            &&& actual == c.len()
        },
        AssemblyError::TypeMismatch { index, expected, actual } => {
            &&& arity_ok(f, c)
            &&& index < c.len()
            &&& types_ok_below(f, c, index as int)
            &&& expected == f[index as int].data_type
            &&& actual == c[index as int].data_type()
            &&& expected != actual
        },
        AssemblyError::NullabilityViolation { index, row } => {
            &&& arity_ok(f, c)
            &&& types_ok_below(f, c, c.len() as int)
            &&& index < c.len()
            &&& nulls_ok_below(f, c, index as int)
            &&& !f[index as int].nullable
            &&& row < c[index as int].len()
            &&& c[index as int].is_null(row as int)
            &&& forall|k: int| 0 <= k < row ==> !#[trigger] c[index as int].is_null(k)
        },
        AssemblyError::RowCountMismatch { index, expected, actual } => {
            &&& arity_ok(f, c)
            &&& types_ok_below(f, c, c.len() as int)
            &&& nulls_ok_below(f, c, c.len() as int)
            &&& index < c.len()
            &&& rows_ok_below(c, index as int)
            &&& expected == c[0].len()
            &&& actual == c[index as int].len()
            &&& expected != actual
        },
    }
}

/// What a record batch holds: its schema's fields and its columns.
pub struct BatchView {
    pub schema: Seq<FieldView>,
    pub columns: Seq<ColumnView>,
}

impl BatchView {
    /// The length of the first column, or 0 without columns.
    pub open spec fn num_rows(self) -> nat {
        if self.columns.len() == 0 {
            0
        } else {
            self.columns[0].len()
        }
    }

    pub open spec fn num_columns(self) -> nat {
        self.columns.len()
    }
}

/// An immutable table: a schema and one column per field, all of one length.
#[derive(Debug)]
pub struct RecordBatch {
    schema: Schema,
    columns: Vec<Column>,
}

impl View for RecordBatch {
    type V = BatchView;

    closed spec fn view(&self) -> BatchView {
        BatchView { schema: self.schema@, columns: columns_view(self.columns@) }
    }
}

impl RecordBatch {
    #[verifier::type_invariant]
    spec fn well_formed(&self) -> bool {
        batch_invariants(self.schema@, columns_view(self.columns@))
    }

    pub fn schema(&self) -> (r: &Schema)
        ensures
            r@ == self@.schema,
            batch_invariants(self@.schema, self@.columns),
    {
        proof {
            use_type_invariant(self);
        }
        &self.schema
    }

    pub fn num_rows(&self) -> (r: usize)
        ensures
            r == self@.num_rows(),
            forall|i: int| 0 <= i < self@.columns.len() ==> #[trigger] self@.columns[i].len() == r,
    {
        proof {
            use_type_invariant(self);
            let c = self@.columns;
            assert forall|i: int| 0 <= i < c.len() implies #[trigger] c[i].len() == c[0].len() by {
                assert(rows_ok(c, i));
            }
        }
        if self.columns.len() == 0 {
            0
        } else {
            self.columns[0].len()
        }
    }

    pub fn num_columns(&self) -> (r: usize)
        ensures
            r == self@.num_columns(),
            r == self@.schema.len(),
    {
        proof {
            use_type_invariant(self);
        }
        self.columns.len()
    }

    pub fn column(&self, i: usize) -> (r: &Column)
        requires
            i < self@.columns.len(),
        ensures
            r@ == self@.columns[i as int],
    {
        &self.columns[i]
    }
}

/// Checks the columns against the schema and, where every check passes,
/// makes the record batch; otherwise reports the first check that failed.
pub fn assemble(schema: Schema, columns: Vec<Column>) -> (r: Result<RecordBatch, AssemblyError>)
    ensures
        r is Ok <==> batch_invariants(schema@, columns_view(columns@)),
        r matches Ok(b) ==> b@ == (BatchView { schema: schema@, columns: columns_view(columns@) }),
        r matches Err(e) ==> is_first_failure(schema@, columns_view(columns@), e),
{
    let ghost f = schema@;
    let ghost c = columns_view(columns@);
    let n = columns.len();
    let width = schema.num_fields();
    if n != width {
        return Err(AssemblyError::ArityMismatch { expected: width, actual: n });
    }
    let mut i: usize = 0;
    while i < n
        invariant
            f == schema@,
            c == columns_view(columns@),
            n == c.len() == f.len(),
            i <= n,
            types_ok_below(f, c, i as int),
        decreases n - i,
    {
        let expected = schema.field(i).data_type();
        let actual = columns[i].data_type();
        if expected != actual {
            assert(!type_ok(f, c, i as int));
            return Err(AssemblyError::TypeMismatch { index: i, expected, actual });
        }
        i += 1;
    }
    let mut i: usize = 0;
    while i < n
        invariant
            f == schema@,
            c == columns_view(columns@),
            n == c.len() == f.len(),
            i <= n,
            types_ok_below(f, c, n as int),
            nulls_ok_below(f, c, i as int),
        decreases n - i,
    {
        if !schema.field(i).is_nullable() {
            if let Some(row) = columns[i].first_null() {
                assert(c[i as int].is_null(row as int));
                assert(!null_ok(f, c, i as int));
                return Err(AssemblyError::NullabilityViolation { index: i, row });
            }
        }
        i += 1;
    }
    if n > 0 {
        let rows = columns[0].len();
        let mut i: usize = 0;
        while i < n
            invariant
                f == schema@,
                c == columns_view(columns@),
                n == c.len() == f.len(),
                n > 0,
                rows == c[0].len(),
                i <= n,
                types_ok_below(f, c, n as int),
                nulls_ok_below(f, c, n as int),
                rows_ok_below(c, i as int),
            decreases n - i,
        {
            let len = columns[i].len();
            if len != rows {
                assert(!rows_ok(c, i as int));
                return Err(AssemblyError::RowCountMismatch { index: i, expected: rows, actual: len });
            }
            i += 1;
        }
    }
    Ok(RecordBatch { schema, columns })
}

/// The description of an assembly failure.
pub open spec fn error_text(e: AssemblyError) -> Seq<char> {
    match e {
        AssemblyError::ArityMismatch { expected, actual } => "arity mismatch: expected "@ + nat_text(
            expected as nat,
        ) + " columns, found "@ + nat_text(actual as nat),
        AssemblyError::TypeMismatch { index, expected, actual } => "type mismatch: column "@ + nat_text(
            index as nat,
        ) + " expected "@ + type_label(expected) + ", found "@ + type_label(actual),
        AssemblyError::NullabilityViolation { index, row } => "nullability violation: column "@
            + nat_text(index as nat) + " is not nullable, row "@ + nat_text(row as nat)
            + " is null"@,
        AssemblyError::RowCountMismatch { index, expected, actual } => "row count mismatch: column "@
            + nat_text(index as nat) + " expected "@ + nat_text(expected as nat) + " rows, found "@
            + nat_text(actual as nat),
    }
}

impl AssemblyError {
    /// Describes the failure in words.
    pub fn message(&self) -> (r: String)
        ensures
            r@ == error_text(*self),
    {
        let mut out = String::new();
        match *self {
            AssemblyError::ArityMismatch { expected, actual } => {
                out.append("arity mismatch: expected ");
                push_nat(&mut out, expected as u64);
                out.append(" columns, found ");
                push_nat(&mut out, actual as u64);
            },
            AssemblyError::TypeMismatch { index, expected, actual } => {
                out.append("type mismatch: column ");
                push_nat(&mut out, index as u64);
                out.append(" expected ");
                out.append(arrow_type_label(expected).as_str());
                out.append(", found ");
                out.append(arrow_type_label(actual).as_str());
            },
            AssemblyError::NullabilityViolation { index, row } => {
                out.append("nullability violation: column ");
                push_nat(&mut out, index as u64);
                out.append(" is not nullable, row ");
                push_nat(&mut out, row as u64);
                out.append(" is null");
            },
            AssemblyError::RowCountMismatch { index, expected, actual } => {
                out.append("row count mismatch: column ");
                push_nat(&mut out, index as u64);
                out.append(" expected ");
                push_nat(&mut out, expected as u64);
                out.append(" rows, found ");
                push_nat(&mut out, actual as u64);
            },
        }
        assert(out@ =~= error_text(*self));
        out
    }
}

/// Columns that meet the batch invariants against a schema fail no check, so
/// they assemble; the batch then has as many rows as every column holds
/// values, and as many columns as the schema has fields.
pub proof fn lemma_valid_columns_assemble(f: Seq<FieldView>, c: Seq<ColumnView>)
    requires
        batch_invariants(f, c),
    ensures
        forall|e: AssemblyError| !is_first_failure(f, c, e),
        forall|i: int|
            0 <= i < c.len() ==> #[trigger] c[i].len() == (BatchView { schema: f, columns: c }).num_rows(),
        (BatchView { schema: f, columns: c }).num_columns() == f.len(),
{
    assert forall|e: AssemblyError| !is_first_failure(f, c, e) by {
        match e {
            AssemblyError::ArityMismatch { .. } => {},
            AssemblyError::TypeMismatch { index, .. } => {
                if index < c.len() {
                    assert(type_ok(f, c, index as int));
                }
            },
            AssemblyError::NullabilityViolation { index, row } => {
                if index < c.len() && row < c[index as int].len() {
                    assert(null_ok(f, c, index as int));
                }
            },
            AssemblyError::RowCountMismatch { index, .. } => {
                if index < c.len() {
                    assert(rows_ok(c, index as int));
                }
            },
        }
    }
    assert forall|i: int| 0 <= i < c.len() implies #[trigger] c[i].len() == (BatchView {
        schema: f,
        columns: c,
    }).num_rows() by {
        assert(rows_ok(c, i));
    }
}

/// A column count other than the schema's width fails assembly, and the
/// failure reported is an arity mismatch naming both counts.
pub proof fn lemma_wrong_arity_fails(f: Seq<FieldView>, c: Seq<ColumnView>)
    requires
        c.len() != f.len(),
    ensures
        !batch_invariants(f, c),
        forall|e: AssemblyError| #[trigger]
            is_first_failure(f, c, e) ==> (e matches AssemblyError::ArityMismatch { expected, actual }
                && expected == f.len() && actual == c.len()),
{
}

/// Where the column count and every column's type are right, an absent value
/// in a column whose field forbids it fails assembly, and the failure reported
/// is a nullability violation at a non-nullable field, at or before that one,
/// and at a row whose value is absent.
pub proof fn lemma_forbidden_null_fails(f: Seq<FieldView>, c: Seq<ColumnView>, i: int, row: int)
    requires
        arity_ok(f, c),
        types_ok_below(f, c, c.len() as int),
        0 <= i < c.len(),
        !f[i].nullable,
        0 <= row < c[i].len(),
        c[i].is_null(row),
    ensures
        !batch_invariants(f, c),
        forall|e: AssemblyError| #[trigger]
            is_first_failure(f, c, e) ==> (e matches AssemblyError::NullabilityViolation { index, row }
                && index <= i && !f[index as int].nullable && c[index as int].is_null(row as int)),
{
    assert(!null_ok(f, c, i));
    assert forall|e: AssemblyError| #[trigger]
        is_first_failure(f, c, e) implies (e matches AssemblyError::NullabilityViolation { index, row }
            && index <= i && !f[index as int].nullable && c[index as int].is_null(row as int)) by {
        match e {
            AssemblyError::TypeMismatch { index, .. } => {
                assert(type_ok(f, c, index as int));
            },
            AssemblyError::NullabilityViolation { index, row } => {
                if index > i {
                    assert(null_ok(f, c, i));
                }
            },
            _ => {},
        }
    }
}

/// Where the column count, every type and every absence are right, columns of
/// unequal length fail assembly, and the failure reported is a row count
/// mismatch against the first column.
pub proof fn lemma_unequal_lengths_fail(f: Seq<FieldView>, c: Seq<ColumnView>, i: int, j: int)
    requires
        arity_ok(f, c),
        types_ok_below(f, c, c.len() as int),
        nulls_ok_below(f, c, c.len() as int),
        0 <= i < c.len(),
        0 <= j < c.len(),
        c[i].len() != c[j].len(),
    ensures
        !batch_invariants(f, c),
        forall|e: AssemblyError| #[trigger]
            is_first_failure(f, c, e) ==> (e matches AssemblyError::RowCountMismatch { index, expected, actual }
                && expected == c[0].len() && actual == c[index as int].len() && expected != actual),
{
    if rows_ok(c, i) {
        assert(!rows_ok(c, j));
    }
    assert forall|e: AssemblyError| #[trigger]
        is_first_failure(f, c, e) implies (e matches AssemblyError::RowCountMismatch { index, expected, actual }
            && expected == c[0].len() && actual == c[index as int].len() && expected != actual) by {
        match e {
            AssemblyError::TypeMismatch { index, .. } => {
                assert(type_ok(f, c, index as int));
            },
            AssemblyError::NullabilityViolation { index, row } => {
                assert(null_ok(f, c, index as int));
            },
            _ => {},
        }
    }
}

} // verus!
