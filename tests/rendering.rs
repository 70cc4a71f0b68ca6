use lambda_db::batch::assemble;
use lambda_db::column::{build_int64_column, build_utf8_column};
use lambda_db::render::render;
use lambda_db::sample::create_sample_batch;
use lambda_db::schema::{build_schema, define_field, DataType};

#[test]
fn sample_batch_renders_every_value() {
    let batch = create_sample_batch().unwrap();
    assert_eq!(
        render(&batch),
        "Schema: [id: Int64 not null, name: Utf8 not null, age: Int64 nullable]\n\
         Num rows: 3\n\
         Num columns: 3\n  \
         Column 'id': [1, 2, 3]\n  \
         Column 'name': [\"Alice\", \"Bob\", \"Charlie\"]\n  \
         Column 'age': [30, 25, null]\n"
    );
}

#[test]
fn rendering_twice_gives_the_same_text() {
    let batch = create_sample_batch().unwrap();
    let first = render(&batch);
    let second = render(&batch);
    assert_eq!(first, second);
    assert_eq!(batch.num_rows(), 3);
}

#[test]
fn batch_without_columns_renders_zero_counts() {
    let batch = assemble(build_schema(vec![]), vec![]).unwrap();
    assert_eq!(render(&batch), "Schema: []\nNum rows: 0\nNum columns: 0\n");
}

#[test]
fn batch_without_rows_renders_empty_columns() {
    let schema = build_schema(vec![define_field("s", DataType::Utf8, true)]);
    let batch = assemble(schema, vec![build_utf8_column(vec![])]).unwrap();
    assert_eq!(
        render(&batch),
        "Schema: [s: Utf8 nullable]\nNum rows: 0\nNum columns: 1\n  Column 's': []\n"
    );
}

#[test]
fn extreme_and_negative_integers_render_in_decimal() {
    let schema = build_schema(vec![define_field("v", DataType::Int64, true)]);
    let column = build_int64_column(vec![Some(i64::MIN), Some(-7), Some(0), None, Some(i64::MAX), Some(10)]);
    let batch = assemble(schema, vec![column]).unwrap();
    assert_eq!(
        render(&batch),
        "Schema: [v: Int64 nullable]\nNum rows: 6\nNum columns: 1\n  \
         Column 'v': [-9223372036854775808, -7, 0, null, 9223372036854775807, 10]\n"
    );
}

#[test]
fn long_columns_render_completely() {
    let values: Vec<Option<i64>> = (0..30).map(Some).collect();
    let schema = build_schema(vec![define_field("n", DataType::Int64, false)]);
    let batch = assemble(schema, vec![build_int64_column(values)]).unwrap();
    let expected_values: Vec<String> = (0..30).map(|i| i.to_string()).collect();
    let expected = format!(
        "Schema: [n: Int64 not null]\nNum rows: 30\nNum columns: 1\n  Column 'n': [{}]\n",
        expected_values.join(", ")
    );
    assert_eq!(render(&batch), expected);
}

#[test]
fn null_text_differs_from_the_word_null() {
    let schema = build_schema(vec![define_field("t", DataType::Utf8, true)]);
    let column = build_utf8_column(vec![Some("null".to_string()), None, Some(String::new())]);
    let batch = assemble(schema, vec![column]).unwrap();
    assert!(render(&batch).ends_with("  Column 't': [\"null\", null, \"\"]\n"));
}
