//! A deterministic text report of a record batch.
use vstd::prelude::*;
use vstd::string::*;

use crate::batch::{batch_invariants, BatchView, RecordBatch};
use crate::column::{Column, ColumnView};
use crate::schema::{arrow_type_label, type_label, Field, FieldView, Schema};

verus! {

/// The decimal digit `d` as text.
pub open spec fn digit_text(d: nat) -> Seq<char> {
    "0123456789"@.subrange(d as int, d as int + 1)
}

/// `n` in decimal, without leading zeros.
pub open spec fn nat_text(n: nat) -> Seq<char>
    decreases n,
{
    if n < 10 {
        digit_text(n)
    } else {
        nat_text(n / 10) + digit_text(n % 10)
    }
}

/// `v` in decimal, with a leading `-` when negative.
pub open spec fn int_text(v: int) -> Seq<char> {
    if v < 0 {
        "-"@ + nat_text((-v) as nat)
    } else {
        nat_text(v as nat)
    }
}

/// A value at `row`: `null` where absent, a number in decimal, or text in
/// double quotes.
pub open spec fn value_text(c: ColumnView, row: int) -> Seq<char> {
    match c {
        ColumnView::Int64(v) => match v[row] {
            Some(x) => int_text(x as int),
            None => "null"@,
        },
        ColumnView::Utf8(v) => match v[row] {
            Some(s) => "\""@ + s + "\""@,
            None => "null"@,
        },
    }
}

/// The values of the first `n` rows, separated by `, `.
pub open spec fn values_text(c: ColumnView, n: nat) -> Seq<char>
    decreases n,
{
    if n == 0 {
        Seq::empty()
    } else if n == 1 {
        value_text(c, 0)
    } else {
        values_text(c, (n - 1) as nat) + ", "@ + value_text(c, n - 1)
    }
}

/// All values of a column, in brackets.
pub open spec fn column_text(c: ColumnView) -> Seq<char> {
    "["@ + values_text(c, c.len()) + "]"@
}

/// A field as `name: Type not null` or `name: Type nullable`.
pub open spec fn field_text(f: FieldView) -> Seq<char> {
    f.name + ": "@ + type_label(f.data_type) + if f.nullable {
        " nullable"@
    } else {
        " not null"@
    }
}

/// The first `n` fields, separated by `, `.
pub open spec fn fields_text(f: Seq<FieldView>, n: nat) -> Seq<char>
    decreases n,
{
    if n == 0 {
        Seq::empty()
    } else if n == 1 {
        field_text(f[0])
    } else {
        fields_text(f, (n - 1) as nat) + ", "@ + field_text(f[n - 1])
    }
}

/// All fields of a schema, in brackets.
pub open spec fn schema_text(f: Seq<FieldView>) -> Seq<char> {
    "["@ + fields_text(f, f.len()) + "]"@
}

/// The line of one column: its field's name and its values.
pub open spec fn section_text(f: FieldView, c: ColumnView) -> Seq<char> {
    "  Column '"@ + f.name + "': "@ + column_text(c) + "\n"@
}

/// The lines of the first `n` columns.
pub open spec fn sections_text(b: BatchView, n: nat) -> Seq<char>
    decreases n,
{
    if n == 0 {
        Seq::empty()
    } else {
        sections_text(b, (n - 1) as nat) + section_text(b.schema[n - 1], b.columns[n - 1])
    }
}

/// The report of a batch: its schema, its row count, its column count, then
/// one line per column in schema order.
pub open spec fn render_text(b: BatchView) -> Seq<char> {
    "Schema: "@ + schema_text(b.schema) + "\n"@ + "Num rows: "@ + nat_text(b.num_rows()) + "\n"@
        + "Num columns: "@ + nat_text(b.num_columns()) + "\n"@ + sections_text(b, b.columns.len())
}

pub(crate) fn push_nat(out: &mut String, n: u64)
    ensures
        final(out)@ == old(out)@ + nat_text(n as nat),
    decreases n,
{
    let ghost start = out@;
    if n >= 10 {
        push_nat(out, n / 10);
    }
    let d = (n % 10) as usize;
    proof {
        reveal_strlit("0123456789");
    }
    out.append("0123456789".substring_char(d, d + 1));
    assert(out@ =~= start + nat_text(n as nat));
}

fn push_int(out: &mut String, v: i64)
    ensures
        final(out)@ == old(out)@ + int_text(v as int),
{
    let ghost start = out@;
    if v < 0 {
        out.append("-");
        let m = (0 - (v as i128)) as u64;
        push_nat(out, m);
        assert(out@ =~= start + int_text(v as int));
    } else {
        push_nat(out, v as u64);
    }
}

fn push_value(out: &mut String, c: &Column, row: usize)
    requires
        row < c@.len(),
    ensures
        final(out)@ == old(out)@ + value_text(c@, row as int),
{
    let ghost start = out@;
    match c {
        Column::Int64(v) => match v[row] {
            Some(x) => push_int(out, x),
            None => out.append("null"),
        },
        Column::Utf8(v) => match &v[row] {
            Some(s) => {
                out.append("\"");
                out.append(s.as_str());
                out.append("\"");
                assert(out@ =~= start + value_text(c@, row as int));
            },
            None => out.append("null"),
        },
    }
}

fn push_column(out: &mut String, c: &Column)
    ensures
        final(out)@ == old(out)@ + column_text(c@),
{
    let ghost start = out@;
    out.append("[");
    let n = c.len();
    let mut row: usize = 0;
    while row < n
        invariant
            n == c@.len(),
            row <= n,
            out@ == start + "["@ + values_text(c@, row as nat),
        decreases n - row,
    {
        let ghost before = out@;
        if row > 0 {
            out.append(", ");
        }
        push_value(out, c, row);
        proof {
            if row == 0 {
                assert(values_text(c@, 0) =~= Seq::<char>::empty());
            }
        }
        assert(out@ =~= start + "["@ + values_text(c@, (row + 1) as nat));
        row += 1;
    }
    out.append("]");
    assert(out@ =~= start + column_text(c@));
}

fn push_field(out: &mut String, f: &Field)
    ensures
        final(out)@ == old(out)@ + field_text(f@),
{
    let ghost start = out@;
    out.append(f.name());
    out.append(": ");
    let label = arrow_type_label(f.data_type());
    out.append(label.as_str());
    if f.is_nullable() {
        out.append(" nullable");
    } else {
        out.append(" not null");
    }
    assert(out@ =~= start + field_text(f@));
}

fn push_schema(out: &mut String, schema: &Schema)
    ensures
        final(out)@ == old(out)@ + schema_text(schema@),
{
    let ghost start = out@;
    out.append("[");
    let n = schema.num_fields();
    let mut i: usize = 0;
    while i < n
        invariant
            n == schema@.len(),
            i <= n,
            out@ == start + "["@ + fields_text(schema@, i as nat),
        decreases n - i,
    {
        if i > 0 {
            out.append(", ");
        }
        push_field(out, schema.field(i));
        proof {
            if i == 0 {
                assert(fields_text(schema@, 0) =~= Seq::<char>::empty());
            }
        }
        assert(out@ =~= start + "["@ + fields_text(schema@, (i + 1) as nat));
        i += 1;
    }
    out.append("]");
    assert(out@ =~= start + schema_text(schema@));
}

/// Renders the batch as text; the batch is only read, and the same batch
/// always gives the same text.
pub fn render(batch: &RecordBatch) -> (r: String)
    ensures
        r@ == render_text(batch@),
{
    let schema = batch.schema();
    let mut out = String::from_str("Schema: ");
    push_schema(&mut out, schema);
    out.append("\nNum rows: ");
    push_nat(&mut out, batch.num_rows() as u64);
    out.append("\nNum columns: ");
    let n = batch.num_columns();
    push_nat(&mut out, n as u64);
    out.append("\n");
    let ghost b = batch@;
    let ghost head = out@;
    proof {
        reveal_strlit("\nNum rows: ");
        reveal_strlit("\nNum columns: ");
        reveal_strlit("Num rows: ");
        reveal_strlit("Num columns: ");
        reveal_strlit("\n");
        assert(head =~= "Schema: "@ + schema_text(b.schema) + "\n"@ + "Num rows: "@ + nat_text(b.num_rows())
            + "\n"@ + "Num columns: "@ + nat_text(b.num_columns()) + "\n"@);
    }
    let mut i: usize = 0;
    while i < n
        invariant
            b == batch@,
            schema@ == b.schema,
            n == b.columns.len() == b.schema.len(),
            i <= n,
            out@ == head + sections_text(b, i as nat),
        decreases n - i,
    {
        out.append("  Column '");
        out.append(schema.field(i).name());
        out.append("': ");
        push_column(&mut out, batch.column(i));
        out.append("\n");
        assert(out@ =~= head + sections_text(b, (i + 1) as nat));
        i += 1;
    }
    assert(out@ =~= render_text(b));
    out
}

/// Rendering is deterministic: renderings of batches that hold the same
/// schema and columns are the same text.
pub proof fn lemma_render_deterministic(b1: BatchView, b2: BatchView, s1: Seq<char>, s2: Seq<char>)
    requires
        b1 == b2,
        s1 == render_text(b1),
        s2 == render_text(b2),
    ensures
        s1 == s2,
{
}

/// A batch without columns reports zero rows and zero columns and has no
/// column lines.
pub proof fn lemma_render_no_columns(b: BatchView)
    requires
        batch_invariants(b.schema, b.columns),
        b.columns.len() == 0,
    ensures
        b.num_rows() == 0,
        b.num_columns() == 0,
        sections_text(b, b.columns.len()) == Seq::<char>::empty(),
        render_text(b) == "Schema: []\nNum rows: 0\nNum columns: 0\n"@,
{
    reveal_strlit("0123456789");
    reveal_strlit("Schema: ");
    reveal_strlit("[");
    reveal_strlit("]");
    reveal_strlit("\n");
    reveal_strlit("Num rows: ");
    reveal_strlit("Num columns: ");
    reveal_strlit("Schema: []\nNum rows: 0\nNum columns: 0\n");
    assert(nat_text(0) =~= seq!['0']);
    assert(fields_text(b.schema, 0) =~= Seq::<char>::empty());
    assert(render_text(b) =~= "Schema: []\nNum rows: 0\nNum columns: 0\n"@);
}

} // verus!
