use duckview::app::{Action, App, InputMode, Key, KeyKind};
use duckview::cells::{CellValue, ColumnType};
use duckview::data::{Batch, EngineError, Field, ResultSet};

fn select_one_result() -> ResultSet {
    let schema = vec![Field { name: "1".to_string(), ty: ColumnType::Integer }];
    let rows = vec![vec![CellValue::Integer(1)]];
    let batch = Batch::new(schema, rows).unwrap();
    ResultSet::new(vec![batch]).unwrap()
}

fn engine_error(msg: &str) -> EngineError {
    EngineError { message: msg.chars().collect() }
}

#[test]
fn scroll_offset_floors_at_zero() {
    let mut app = App::new();
    for _ in 0..100 {
        let a = app.handle_key(Key::Up, KeyKind::Press);
        assert_eq!(a, Action::Continue);
        assert_eq!(app.scroll.offset, 0);
    }
    app.handle_key(Key::Down, KeyKind::Press);
    app.handle_key(Key::Down, KeyKind::Press);
    assert_eq!(app.scroll.offset, 2);
    for _ in 0..5 {
        app.handle_key(Key::Up, KeyKind::Press);
    }
    assert_eq!(app.scroll.offset, 0);
}

#[test]
fn down_has_no_ceiling_at_content_length() {
    let mut app = App::new();
    for _ in 0..7 {
        app.handle_key(Key::Down, KeyKind::Press);
    }
    // The upper bound is deliberately unclamped.
    assert_eq!(app.scroll.offset, 7);
    assert_eq!(app.scroll.content_length, 0);
}

#[test]
fn viewport_height_is_recorded_without_touching_the_rest() {
    let mut app = App::new();
    app.handle_key(Key::Down, KeyKind::Press);
    app.scroll.set_viewport_height(24);
    assert_eq!(app.scroll.viewport_height, 24);
    assert_eq!(app.scroll.offset, 1);
    assert_eq!(app.scroll.content_length, 0);
}

#[test]
fn select_one_scenario_renders_single_cell() {
    let mut app = App::new();
    app.handle_key(Key::Char('e'), KeyKind::Press);
    for c in "SELECT 1".chars() {
        app.handle_key(Key::Char(c), KeyKind::Press);
    }
    assert_eq!(app.snapshot(), "SELECT 1");
    let a = app.handle_key(Key::Enter, KeyKind::Press);
    assert_eq!(a, Action::Submit);
    app.submit_sql(Ok(select_one_result()));
    // Submission consumes the input.
    assert_eq!(app.snapshot(), "");
    assert_eq!(app.cursor_position, 0);
    let t = app.data_to_table().unwrap();
    assert_eq!(t.header, vec!["1".to_string()]);
    assert_eq!(t.rows, vec![vec!["1".to_string()]]);
}

#[test]
fn failed_query_leaves_input_and_result_untouched() {
    let mut app = App::new();
    app.submit_sql(Ok(select_one_result()));
    app.handle_key(Key::Char('e'), KeyKind::Press);
    for c in "SELEC 1".chars() {
        app.handle_key(Key::Char(c), KeyKind::Press);
    }
    app.submit_sql(Err(engine_error("syntax error near SELEC")));
    assert_eq!(app.snapshot(), "SELEC 1");
    assert_eq!(app.data.batches.len(), 1);
    let t = app.data_to_table().unwrap();
    assert_eq!(t.rows, vec![vec!["1".to_string()]]);
    // The diagnostic is what the result region shows until the next success.
    let text = app.refresh();
    assert_eq!(text, "syntax error near SELEC");
    assert_eq!(app.scroll.content_length, 1);
    app.submit_sql(Ok(select_one_result()));
    let text = app.refresh();
    assert!(text.contains('1'));
}

#[test]
fn mode_transitions_follow_the_key_table() {
    let mut app = App::new();
    assert_eq!(app.input_mode, InputMode::Normal);
    app.handle_key(Key::Char('e'), KeyKind::Press);
    assert_eq!(app.input_mode, InputMode::Editing);
    app.handle_key(Key::Esc, KeyKind::Press);
    assert_eq!(app.input_mode, InputMode::Normal);
    let a = app.handle_key(Key::Char('q'), KeyKind::Press);
    assert_eq!(a, Action::Exit);
    assert_eq!(app.input_mode, InputMode::Normal);
}

#[test]
fn editing_ignores_repeat_and_release_events() {
    let mut app = App::new();
    app.handle_key(Key::Char('e'), KeyKind::Press);
    app.handle_key(Key::Char('x'), KeyKind::Release);
    app.handle_key(Key::Char('y'), KeyKind::Repeat);
    let a = app.handle_key(Key::Enter, KeyKind::Release);
    assert_eq!(a, Action::Continue);
    assert_eq!(app.snapshot(), "");
    app.handle_key(Key::Char('z'), KeyKind::Press);
    assert_eq!(app.snapshot(), "z");
}

#[test]
fn editing_keys_drive_the_buffer() {
    let mut app = App::new();
    app.handle_key(Key::Char('e'), KeyKind::Press);
    app.handle_key(Key::Char('a'), KeyKind::Press);
    app.handle_key(Key::Char('b'), KeyKind::Press);
    assert_eq!(app.snapshot(), "ab");
    app.handle_key(Key::Backspace, KeyKind::Press);
    assert_eq!(app.snapshot(), "a");
    app.handle_key(Key::Right, KeyKind::Press);
    assert_eq!(app.cursor_position, 1);
    app.handle_key(Key::Left, KeyKind::Press);
    assert_eq!(app.cursor_position, 0);
}

#[test]
fn normal_mode_ignores_editing_keys() {
    let mut app = App::new();
    app.handle_key(Key::Char('x'), KeyKind::Press);
    app.handle_key(Key::Backspace, KeyKind::Press);
    app.handle_key(Key::Enter, KeyKind::Press);
    assert_eq!(app.snapshot(), "");
    assert_eq!(app.input_mode, InputMode::Normal);
}

#[test]
fn render_failure_shows_inline_notice_and_session_survives() {
    let mut app = App::new();
    let schema = vec![Field { name: "c".to_string(), ty: ColumnType::Unsupported }];
    let rows = vec![vec![CellValue::Unsupported]];
    let batch = Batch::new(schema, rows).unwrap();
    let rs = ResultSet::new(vec![batch]).unwrap();
    app.submit_sql(Ok(rs));
    assert!(app.data_to_table().is_err());
    let text = app.refresh();
    assert_eq!(text, "format error");
    assert_eq!(app.scroll.content_length, 1);
    // The session is still alive: a later successful query renders again.
    app.submit_sql(Ok(select_one_result()));
    assert!(app.data_to_table().is_ok());
}
