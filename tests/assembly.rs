use lambda_db::batch::{assemble, AssemblyError};
use lambda_db::column::{build_int64_column, build_utf8_column, Column};
use lambda_db::sample::create_sample_batch;
use lambda_db::schema::{build_schema, define_field, DataType, Schema};

fn users_schema(age_nullable: bool) -> Schema {
    build_schema(vec![
        define_field("id", DataType::Int64, false),
        define_field("name", DataType::Utf8, false),
        define_field("age", DataType::Int64, age_nullable),
    ])
}

fn text(values: &[Option<&str>]) -> Column {
    build_utf8_column(values.iter().map(|v| v.map(|s| s.to_string())).collect())
}

fn users_columns(ages: Vec<Option<i64>>) -> Vec<Column> {
    vec![
        build_int64_column(vec![Some(1), Some(2), Some(3)]),
        text(&[Some("Alice"), Some("Bob"), Some("Charlie")]),
        build_int64_column(ages),
    ]
}

#[test]
fn sample_batch_has_three_rows_and_columns() {
    let batch = create_sample_batch().expect("sample assembles");
    assert_eq!(batch.num_rows(), 3);
    assert_eq!(batch.num_columns(), 3);
    assert_eq!(batch.schema().num_fields(), 3);
    assert_eq!(batch.schema().field(2).name(), "age");
    assert!(batch.schema().field(2).is_nullable());
    assert!(!batch.schema().field(0).is_nullable());
    assert_eq!(batch.column(2).first_null(), Some(2));
}

#[test]
fn users_table_assembles() {
    let batch = assemble(users_schema(true), users_columns(vec![Some(30), Some(25), None])).unwrap();
    assert_eq!(batch.num_rows(), 3);
    assert_eq!(batch.num_columns(), 3);
    for i in 0..3 {
        assert_eq!(batch.column(i).len(), batch.num_rows());
        assert_eq!(batch.column(i).data_type(), batch.schema().field(i).data_type());
    }
}

#[test]
fn null_in_non_nullable_age_is_rejected() {
    let r = assemble(users_schema(false), users_columns(vec![Some(30), None, Some(40)]));
    assert_eq!(r.unwrap_err(), AssemblyError::NullabilityViolation { index: 2, row: 1 });
}

#[test]
fn missing_column_is_arity_mismatch() {
    let mut columns = users_columns(vec![Some(30), Some(25), None]);
    columns.pop();
    let r = assemble(users_schema(true), columns);
    assert_eq!(r.unwrap_err(), AssemblyError::ArityMismatch { expected: 3, actual: 2 });
}

#[test]
fn extra_column_is_arity_mismatch() {
    let mut columns = users_columns(vec![Some(30), Some(25), None]);
    columns.push(build_int64_column(vec![]));
    let r = assemble(users_schema(true), columns);
    assert_eq!(r.unwrap_err(), AssemblyError::ArityMismatch { expected: 3, actual: 4 });
}

#[test]
fn wrong_type_is_type_mismatch() {
    let columns = vec![
        build_int64_column(vec![Some(1)]),
        build_int64_column(vec![Some(2)]),
        build_int64_column(vec![Some(3)]),
    ];
    let r = assemble(users_schema(true), columns);
    assert_eq!(
        r.unwrap_err(),
        AssemblyError::TypeMismatch { index: 1, expected: DataType::Utf8, actual: DataType::Int64 }
    );
}

#[test]
fn type_check_comes_before_null_check() {
    let schema = build_schema(vec![
        define_field("a", DataType::Int64, false),
        define_field("b", DataType::Int64, false),
    ]);
    let columns = vec![build_int64_column(vec![None]), text(&[Some("x")])];
    assert_eq!(
        assemble(schema, columns).unwrap_err(),
        AssemblyError::TypeMismatch { index: 1, expected: DataType::Int64, actual: DataType::Utf8 }
    );
}

#[test]
fn null_check_comes_before_length_check() {
    let schema = build_schema(vec![
        define_field("a", DataType::Int64, true),
        define_field("b", DataType::Utf8, false),
    ]);
    let columns = vec![build_int64_column(vec![Some(1), None]), text(&[Some("x"), Some("y"), None])];
    assert_eq!(
        assemble(schema, columns).unwrap_err(),
        AssemblyError::NullabilityViolation { index: 1, row: 2 }
    );
}

#[test]
fn first_absent_value_is_reported() {
    let schema = build_schema(vec![define_field("a", DataType::Int64, false)]);
    let columns = vec![build_int64_column(vec![Some(1), None, Some(3), None])];
    assert_eq!(
        assemble(schema, columns).unwrap_err(),
        AssemblyError::NullabilityViolation { index: 0, row: 1 }
    );
}

#[test]
fn unequal_lengths_are_row_count_mismatch() {
    let columns = vec![
        build_int64_column(vec![Some(1), Some(2), Some(3)]),
        text(&[Some("Alice"), Some("Bob")]),
        build_int64_column(vec![Some(30), Some(25), None]),
    ];
    let r = assemble(users_schema(true), columns);
    assert_eq!(r.unwrap_err(), AssemblyError::RowCountMismatch { index: 1, expected: 3, actual: 2 });
}

#[test]
fn nulls_allowed_in_nullable_column() {
    let schema = build_schema(vec![define_field("a", DataType::Utf8, true)]);
    let batch = assemble(schema, vec![text(&[None, None])]).unwrap();
    assert_eq!(batch.num_rows(), 2);
    assert!(batch.column(0).is_null(0));
}

#[test]
fn empty_schema_and_no_columns_assemble() {
    let batch = assemble(build_schema(vec![]), vec![]).unwrap();
    assert_eq!(batch.num_rows(), 0);
    assert_eq!(batch.num_columns(), 0);
}

#[test]
fn zero_rows_assemble() {
    let schema = build_schema(vec![define_field("a", DataType::Int64, false)]);
    let batch = assemble(schema, vec![build_int64_column(vec![])]).unwrap();
    assert_eq!(batch.num_rows(), 0);
    assert_eq!(batch.num_columns(), 1);
}

#[test]
fn duplicate_names_are_allowed() {
    let schema = build_schema(vec![
        define_field("x", DataType::Int64, false),
        define_field("x", DataType::Int64, false),
    ]);
    let columns = vec![build_int64_column(vec![Some(1)]), build_int64_column(vec![Some(2)])];
    assert_eq!(assemble(schema, columns).unwrap().num_columns(), 2);
}

#[test]
fn error_messages_describe_each_failure() {
    assert_eq!(
        AssemblyError::ArityMismatch { expected: 3, actual: 2 }.message(),
        "arity mismatch: expected 3 columns, found 2"
    );
    assert_eq!(
        AssemblyError::TypeMismatch { index: 1, expected: DataType::Utf8, actual: DataType::Int64 }.message(),
        "type mismatch: column 1 expected Utf8, found Int64"
    );
    assert_eq!(
        AssemblyError::NullabilityViolation { index: 2, row: 1 }.message(),
        "nullability violation: column 2 is not nullable, row 1 is null"
    );
    assert_eq!(
        AssemblyError::RowCountMismatch { index: 10, expected: 123, actual: 0 }.message(),
        "row count mismatch: column 10 expected 123 rows, found 0"
    );
}
