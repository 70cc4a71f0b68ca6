//! An example table of users, built through the public constructors.
use vstd::prelude::*;
use vstd::string::*;

use crate::batch::{assemble, AssemblyError, BatchView, RecordBatch};
use crate::column::{build_int64_column, build_utf8_column, columns_view, text_opt_view, ColumnView};
use crate::schema::{build_schema, define_field, DataType, FieldView};

verus! {

/// The example table: a non-null id, a non-null name and a nullable age, for
/// three users, the last of whom has no age.
pub open spec fn sample_view() -> BatchView {
    BatchView {
        schema: seq![
            FieldView { name: "id"@, data_type: DataType::Int64, nullable: false },
            FieldView { name: "name"@, data_type: DataType::Utf8, nullable: false },
            FieldView { name: "age"@, data_type: DataType::Int64, nullable: true },
        ],
        columns: seq![
            ColumnView::Int64(seq![Some(1i64), Some(2i64), Some(3i64)]),
            ColumnView::Utf8(seq![Some("Alice"@), Some("Bob"@), Some("Charlie"@)]),
            ColumnView::Int64(seq![Some(30i64), Some(25i64), None]),
        ],
    }
}

/// Builds the example table; it always assembles.
pub fn create_sample_batch() -> (r: Result<RecordBatch, AssemblyError>)
    ensures
        r matches Ok(b) && b@ == sample_view(),
{
    proof {
        reveal_strlit("id");
        reveal_strlit("name");
        reveal_strlit("age");
    }
    let schema = build_schema(
        vec![
            define_field("id", DataType::Int64, false),
            define_field("name", DataType::Utf8, false),
            define_field("age", DataType::Int64, true),
        ],
    );
    let ids = build_int64_column(vec![Some(1i64), Some(2i64), Some(3i64)]);
    let name_values = vec![
        Some(String::from_str("Alice")),
        Some(String::from_str("Bob")),
        Some(String::from_str("Charlie")),
    ];
    assert(name_values@.map_values(|o: Option<String>| text_opt_view(o)) =~= seq![
        Some("Alice"@),
        Some("Bob"@),
        Some("Charlie"@),
    ]);
    let names = build_utf8_column(name_values);
    let ages = build_int64_column(vec![Some(30i64), Some(25i64), None]);
    let columns = vec![ids, names, ages];
    let ghost v = sample_view();
    assert(schema@ =~= v.schema);
    assert(columns_view(columns@) =~= v.columns);
    assemble(schema, columns)
}

} // verus!
