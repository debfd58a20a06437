use plpgsql_check_report::position::{
    line_break_from, line_start_at, preceding_line_start, resolve, resolve_chars, PositionError,
    ResolvedPosition,
};
use plpgsql_check_report::text::chars_of;

#[test]
fn resolves_second_line_of_two() {
    let r = resolve("select 1;\nselect bad_col;", 17).unwrap();
    assert_eq!(
        r,
        ResolvedPosition { line_no: 2, column: 7, line_start: 10, context_start: 0, line_end: None }
    );
    assert_eq!(r.excerpt_end(25), 25);
}

#[test]
fn resolves_start_of_text() {
    let r = resolve("x", 0).unwrap();
    assert_eq!(
        r,
        ResolvedPosition { line_no: 1, column: 0, line_start: 0, context_start: 0, line_end: None }
    );
}

#[test]
fn resolves_start_of_any_text() {
    for text in ["", "abc", "\n", "\n\nabc", "a\tb\nc"] {
        let r = resolve(text, 0).unwrap();
        assert_eq!(r.line_no, 1);
        assert_eq!(r.column, 0);
        assert_eq!(r.line_start, 0);
        assert_eq!(r.context_start, 0);
    }
}

#[test]
fn resolves_empty_text() {
    let r = resolve("", 0).unwrap();
    assert_eq!(
        r,
        ResolvedPosition { line_no: 1, column: 0, line_start: 0, context_start: 0, line_end: None }
    );
    assert_eq!(r.excerpt_end(0), 0);
}

#[test]
fn column_is_zero_right_after_line_break() {
    let text = "ab\ncd\n\nef";
    for (position, line_no) in [(3, 2), (6, 3), (7, 4)] {
        let r = resolve(text, position).unwrap();
        assert_eq!(r.column, 0);
        assert_eq!(r.line_no, line_no);
        assert_eq!(r.line_start, position as usize);
    }
}

#[test]
fn text_without_line_break_is_one_line() {
    let text = "select now()";
    for position in 0..=12 {
        let r = resolve(text, position).unwrap();
        assert_eq!(r.line_no, 1);
        assert_eq!(r.column, position as usize);
        assert_eq!(r.line_start, 0);
        assert_eq!(r.context_start, 0);
        assert_eq!(r.line_end, None);
        assert_eq!(r.excerpt_end(12), 12);
    }
}

#[test]
fn line_end_is_the_next_line_break() {
    let r = resolve("ab\ncd\nef", 4).unwrap();
    assert_eq!(
        r,
        ResolvedPosition {
            line_no: 2,
            column: 1,
            line_start: 3,
            context_start: 0,
            line_end: Some(5),
        }
    );
    assert_eq!(r.excerpt_end(8), 5);
}

#[test]
fn position_on_a_line_break_ends_its_line_there() {
    let r = resolve("ab\ncd", 2).unwrap();
    assert_eq!(
        r,
        ResolvedPosition {
            line_no: 1,
            column: 2,
            line_start: 0,
            context_start: 0,
            line_end: Some(2),
        }
    );
    let first = resolve("\nab", 0).unwrap();
    assert_eq!(first.line_end, Some(0));
    assert_eq!(first.excerpt_end(3), 0);
}

#[test]
fn position_at_end_of_text_is_accepted() {
    let r = resolve("ab\ncd", 5).unwrap();
    assert_eq!(
        r,
        ResolvedPosition { line_no: 2, column: 2, line_start: 3, context_start: 0, line_end: None }
    );
}

#[test]
fn position_behind_the_text_is_refused() {
    assert_eq!(resolve("ab\ncd", 6), Err(PositionError::OutOfBounds));
    assert_eq!(resolve("", 1), Err(PositionError::OutOfBounds));
    assert_eq!(resolve("x", i32::MAX), Err(PositionError::OutOfBounds));
}

#[test]
fn negative_position_is_refused() {
    assert_eq!(resolve("ab\ncd", -1), Err(PositionError::OutOfBounds));
    assert_eq!(resolve("ab\ncd", i32::MIN), Err(PositionError::OutOfBounds));
}

#[test]
fn context_reaches_three_lines_up() {
    let text = "a\nb\nc\nd\ne\nf";
    let r = resolve(text, 10).unwrap();
    assert_eq!(
        r,
        ResolvedPosition { line_no: 6, column: 0, line_start: 10, context_start: 4, line_end: None }
    );
    let r = resolve(text, 7).unwrap();
    assert_eq!(
        r,
        ResolvedPosition {
            line_no: 4,
            column: 1,
            line_start: 6,
            context_start: 0,
            line_end: Some(7),
        }
    );
    let r = resolve(text, 8).unwrap();
    assert_eq!(r.line_start, 8);
    assert_eq!(r.context_start, 2);
}

#[test]
fn context_counts_blank_lines() {
    let text = "a\n\n\n\nbcd";
    let r = resolve(text, 6).unwrap();
    assert_eq!(
        r,
        ResolvedPosition { line_no: 5, column: 1, line_start: 5, context_start: 2, line_end: None }
    );
}

#[test]
fn positions_count_characters_not_bytes() {
    let text = "é€\n🛑x";
    let r = resolve(text, 4).unwrap();
    assert_eq!(
        r,
        ResolvedPosition { line_no: 2, column: 1, line_start: 3, context_start: 0, line_end: None }
    );
    assert!(resolve(text, 5).is_ok());
    assert_eq!(resolve(text, 6), Err(PositionError::OutOfBounds));
}

#[test]
fn carriage_returns_are_ordinary_characters() {
    let r = resolve("ab\r\ncd", 5).unwrap();
    assert_eq!(r.line_no, 2);
    assert_eq!(r.column, 1);
    assert_eq!(r.line_start, 4);
    let r = resolve("ab\rcd", 4).unwrap();
    assert_eq!(r.line_no, 1);
    assert_eq!(r.column, 4);
}

#[test]
fn resolve_chars_agrees_with_resolve() {
    let text = "one\ntwo\n\tthree\nfour\nfive";
    let chars = chars_of(text);
    for position in -1..=(chars.len() as i32 + 1) {
        assert_eq!(resolve_chars(&chars, position), resolve(text, position));
    }
}

#[test]
fn line_start_at_finds_the_line() {
    let chars = chars_of("ab\ncd\nef");
    let expected = [0, 0, 0, 3, 3, 3, 6, 6, 6];
    for (p, start) in expected.iter().enumerate() {
        assert_eq!(line_start_at(&chars, p), *start);
    }
}

#[test]
fn preceding_line_start_walks_up() {
    let chars = chars_of("ab\ncd\nef\ngh");
    assert_eq!(preceding_line_start(&chars, 9, 0), 9);
    assert_eq!(preceding_line_start(&chars, 9, 1), 6);
    assert_eq!(preceding_line_start(&chars, 9, 2), 3);
    assert_eq!(preceding_line_start(&chars, 9, 3), 0);
    assert_eq!(preceding_line_start(&chars, 9, 4), 0);
    assert_eq!(preceding_line_start(&chars, 0, 2), 0);
}

#[test]
fn line_break_from_finds_the_first() {
    let chars = chars_of("ab\ncd\nef");
    assert_eq!(line_break_from(&chars, 0), Some(2));
    assert_eq!(line_break_from(&chars, 2), Some(2));
    assert_eq!(line_break_from(&chars, 3), Some(5));
    assert_eq!(line_break_from(&chars, 6), None);
    assert_eq!(line_break_from(&chars, 8), None);
}

#[test]
fn line_and_column_follow_the_scan() {
    let text = "ab\n\ncd";
    let expected = [(1, 0), (1, 1), (1, 2), (2, 0), (3, 0), (3, 1), (3, 2)];
    for (p, reached) in expected.iter().enumerate() {
        let r = resolve(text, p as i32).unwrap();
        assert_eq!((r.line_no, r.column), *reached);
        assert_eq!(r.column, p - r.line_start);
    }
}
