use yakou::diagnostic::line::Line;
use yakou::diagnostic::position::Position;
use yakou::diagnostic::span::Span;

#[test]
fn single_line_span_has_offset_and_is_not_multiline() {
    let span = Span::single_line(4, 3, 10);
    assert_eq!(span.offset(), 7);
    assert_eq!(span.width(), Some(7));
    assert!(!span.is_multiline());
}

#[test]
fn zero_width_span_has_offset_zero() {
    let span = Span::single_line(4, 3, 3);
    assert_eq!(span.offset(), 0);
    assert_eq!(span.width(), Some(0));
    assert!(!span.is_multiline());
}

#[test]
fn multiline_span_has_unbounded_offset() {
    let span = Span::multiple_line(1, 0, 6, 0);
    assert_eq!(span.offset(), usize::MAX);
    assert_eq!(span.width(), None);
    assert!(span.is_multiline());
}

#[test]
fn span_that_ends_before_it_starts_has_unbounded_offset() {
    let span = Span::single_line(2, 9, 4);
    assert_eq!(span.offset(), usize::MAX);
    assert_eq!(span.width(), None);
    assert!(!span.is_multiline());
}

#[test]
fn is_in_holds_from_first_to_last_line_and_not_outside() {
    let span = Span::multiple_line(3, 5, 6, 1);
    assert!(!span.is_in(2));
    assert!(span.is_in(3));
    assert!(span.is_in(4));
    assert!(span.is_in(5));
    assert!(span.is_in(6));
    assert!(!span.is_in(7));
    assert!(!Span::range(0, 0).is_in(1));
    assert!(Span::range(0, 0).is_in(0));
}

#[test]
fn constructors_set_both_positions() {
    assert_eq!(Position::new(3, 4), Position { line: 3, column: 4 });
    assert_eq!(
        Span::new(Position::new(1, 2), Position::new(3, 4)),
        Span {
            start_position: Position { line: 1, column: 2 },
            end_position: Position { line: 3, column: 4 }
        }
    );
    assert_eq!(Span::range(2, 5), Span::multiple_line(2, 0, 5, 0));
    assert_eq!(
        Span::single_line(7, 1, 9),
        Span::new(Position::new(7, 1), Position::new(7, 9))
    );
    assert_eq!(
        Span::multiple_line(1, 2, 3, 4),
        Span::new(Position::new(1, 2), Position::new(3, 4))
    );
}

#[test]
fn positions_are_ordered_by_line_then_column() {
    assert!(Position::new(1, 9).precedes(&Position::new(2, 0)));
    assert!(Position::new(2, 3).precedes(&Position::new(2, 4)));
    assert!(!Position::new(2, 4).precedes(&Position::new(2, 4)));
    assert!(!Position::new(3, 0).precedes(&Position::new(2, 9)));
    assert!(Position::new(1, 9) < Position::new(2, 0));
    assert!(Position::new(2, 3) < Position::new(2, 4));
}

#[test]
fn expand_moves_the_end_and_never_the_start() {
    let span = Span::single_line(3, 4, 8);
    assert_eq!(span.expand(Span::single_line(5, 0, 2)), Span::multiple_line(3, 4, 5, 2));
    assert_eq!(span.expand(Span::single_line(3, 4, 6)), Span::single_line(3, 4, 6));
    assert_eq!(span.expand(Span::multiple_line(0, 0, 3, 4)), Span::single_line(3, 4, 4));
}

#[test]
fn expand_ignores_a_span_that_ends_before_the_start() {
    let span = Span::single_line(3, 4, 8);
    assert_eq!(span.expand(Span::single_line(2, 0, 9)), span);
    assert_eq!(span.expand(Span::single_line(3, 0, 3)), span);
}

#[test]
fn line_span_covers_the_line() {
    let line = Line::new(4, 2, 7, "abcdefg".to_string());
    assert_eq!(line.span(), Span::single_line(4, 2, 9));
    assert_eq!(line.span().offset(), 7);
    let blank = Line::new(0, 0, 0, String::new());
    assert_eq!(blank.span(), Span::single_line(0, 0, 0));
}
