use duckview::app::App;
use duckview::cells::{format_bool, format_cell, format_integer, CellValue, ColumnType};
use duckview::data::{Batch, Field, ResultSet};
use duckview::render::{count_lines, render_result, RenderedTable};

fn field(name: &str, ty: ColumnType) -> Field {
    Field { name: name.to_string(), ty }
}

fn int_batch(name: &str, values: &[i64]) -> Batch {
    let schema = vec![field(name, ColumnType::Integer)];
    let rows: Vec<Vec<CellValue>> = values.iter().map(|v| vec![CellValue::Integer(*v)]).collect();
    Batch::new(schema, rows).unwrap()
}

#[test]
fn integers_format_in_canonical_decimal() {
    assert_eq!(format_integer(0), "0");
    assert_eq!(format_integer(7), "7");
    assert_eq!(format_integer(12), "12");
    assert_eq!(format_integer(-5), "-5");
    assert_eq!(format_integer(1000), "1000");
    assert_eq!(format_integer(i64::MAX), "9223372036854775807");
    assert_eq!(format_integer(i64::MIN), "-9223372036854775808");
}

#[test]
fn booleans_and_null_format_explicitly() {
    assert_eq!(format_bool(true), "true");
    assert_eq!(format_bool(false), "false");
    assert_eq!(format_cell(&CellValue::Null).unwrap(), "NULL");
    assert_eq!(format_cell(&CellValue::Boolean(true)).unwrap(), "true");
}

#[test]
fn text_formats_verbatim() {
    let c = CellValue::Text("héllo  world".to_string());
    assert_eq!(format_cell(&c).unwrap(), "héllo  world");
}

#[test]
fn unsupported_cell_fails_to_format() {
    assert!(format_cell(&CellValue::Unsupported).is_err());
}

#[test]
fn empty_result_set_renders_to_empty_table() {
    let rs = ResultSet::empty();
    let t = render_result(&rs).unwrap();
    assert_eq!(t.header.len(), 0);
    assert_eq!(t.rows.len(), 0);
}

#[test]
fn batch_rows_concatenate_in_order() {
    let b1 = int_batch("n", &[1, 2]);
    let b2 = int_batch("n", &[3]);
    let b3 = int_batch("n", &[4, 5, 6]);
    let rs = ResultSet::new(vec![b1, b2, b3]).unwrap();
    let t = render_result(&rs).unwrap();
    assert_eq!(t.header, vec!["n".to_string()]);
    assert_eq!(t.rows.len(), 6);
    let flat: Vec<String> = t.rows.iter().map(|r| r[0].clone()).collect();
    assert_eq!(flat, vec!["1", "2", "3", "4", "5", "6"]);
}

#[test]
fn unsupported_value_surfaces_as_render_error() {
    let schema = vec![field("c", ColumnType::Unsupported)];
    let rows = vec![vec![CellValue::Unsupported]];
    let batch = Batch::new(schema, rows).unwrap();
    let rs = ResultSet::new(vec![batch]).unwrap();
    assert!(render_result(&rs).is_err());
}

#[test]
fn misaligned_row_is_rejected_by_batch_constructor() {
    let schema = vec![field("a", ColumnType::Integer), field("b", ColumnType::Text)];
    let short_row = vec![vec![CellValue::Integer(1)]];
    assert!(Batch::new(schema.clone(), short_row).is_none());
    let wrong_type = vec![vec![CellValue::Text("x".to_string()), CellValue::Integer(2)]];
    assert!(Batch::new(schema.clone(), wrong_type).is_none());
    let null_fits_any = vec![vec![CellValue::Null, CellValue::Null]];
    assert!(Batch::new(schema, null_fits_any).is_some());
}

#[test]
fn differing_schemas_are_rejected_by_result_set_constructor() {
    let b1 = int_batch("a", &[1]);
    let b2 = int_batch("b", &[2]);
    assert!(ResultSet::new(vec![b1, b2]).is_none());
    let b3 = int_batch("a", &[1]);
    let b4 = int_batch("a", &[2]);
    assert!(ResultSet::new(vec![b3, b4]).is_some());
}

#[test]
fn grid_lays_out_header_rows_and_borders() {
    let t = RenderedTable {
        header: vec!["name".to_string()],
        rows: vec![vec!["x".to_string()], vec!["yy".to_string()]],
    };
    let g: String = t.grid().iter().collect();
    // The grid is a bordered layout, not the bare cell texts.
    assert!(g.contains("name"));
    assert!(g.contains('x'));
    assert!(g.contains("yy"));
    assert!(g.contains('+') || g.contains('|') || g.contains('-'));
    assert!(g.lines().count() >= 4);
    assert_ne!(g, "name");
}

#[test]
fn line_counting_matches_newlines() {
    assert_eq!(count_lines(&Vec::new()), 0);
    let one: Vec<char> = "abc".chars().collect();
    assert_eq!(count_lines(&one), 1);
    let two: Vec<char> = "a\nb".chars().collect();
    assert_eq!(count_lines(&two), 2);
    let trailing: Vec<char> = "a\n".chars().collect();
    assert_eq!(count_lines(&trailing), 2);
}

#[test]
fn refresh_recalibrates_content_length_to_grid_lines() {
    let mut app = App::new();
    let rs = ResultSet::new(vec![int_batch("n", &[1, 2, 3])]).unwrap();
    app.submit_sql(Ok(rs));
    let text = app.refresh();
    assert_eq!(app.scroll.content_length, text.lines().count());
    assert!(app.scroll.content_length >= 4);
    assert_eq!(app.scroll.offset, 0);
}
