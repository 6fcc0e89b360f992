//! End-to-end tests for the execution driver, run against the real
//! embedded evaluator.

use grift_runner::driver::ExitOutcome;
use grift_runner::driver::Outcome;
use grift_runner::driver::final_output;
use grift_runner::driver::read_failure_message;
use grift_runner::driver::read_shape;
use grift_runner::driver::shape_of;
use grift_runner::host::Class;
use grift_runner::driver::run_source;
use grift_runner::driver::usage_message;
use grift_runner::driver::wrap_program;
use grift_runner::render::RenderMode;
use grift_runner::render::Shape;
use grift_runner::render::render;

fn expect_line(source: &str, line: &str) {
    match run_source::<10000>(source) {
        Outcome::Completed(Some(got)) => assert_eq!(got, line),
        Outcome::Completed(None) => panic!("no result line for {:?}", source),
        Outcome::EvaluationFailure(msg) => panic!("evaluation failed: {}", msg),
    }
}

fn expect_error(source: &str, msg: &str) {
    match run_source::<10000>(source) {
        Outcome::EvaluationFailure(got) => assert_eq!(got, msg),
        Outcome::Completed(_) => panic!("evaluation unexpectedly succeeded for {:?}", source),
    }
}

#[test]
fn wrapping_encloses_the_source_in_one_begin_form() {
    assert_eq!(wrap_program("1 2 3"), "(begin 1 2 3)");
    assert_eq!(wrap_program(""), "(begin )");
}

#[test]
fn arithmetic_result_is_written_with_a_newline() {
    expect_line("(+ 1 2)", "3\n");
}

#[test]
fn three_sequential_forms_evaluate_left_to_right_as_one_unit() {
    expect_line("(define! a 1) (define! b (+ a 1)) (+ a b)", "3\n");
}

#[test]
fn last_of_several_top_level_forms_is_the_final_result() {
    expect_line("1 2 3", "3\n");
}

#[test]
fn no_value_sentinel_prints_no_result_line() {
    match run_source::<10000>("(define! x 5)") {
        Outcome::Completed(None) => {}
        Outcome::Completed(Some(line)) => panic!("unexpected result line {:?}", line),
        Outcome::EvaluationFailure(msg) => panic!("evaluation failed: {}", msg),
    }
}

#[test]
fn string_result_is_written_with_quotes() {
    expect_line("\"abc\"", "\"abc\"\n");
}

#[test]
fn non_ascii_string_result_round_trips_through_the_arena() {
    expect_line("\"héllo\"", "\"héllo\"\n");
}

#[test]
fn boolean_result_keeps_the_evaluator_notation() {
    expect_line("#t", "#t\n");
}

#[test]
fn empty_program_results_in_the_empty_list() {
    expect_line("", "()\n");
}

#[test]
fn unbound_variable_reports_the_evaluator_diagnostic() {
    expect_error("nope", "Unbound variable");
}

#[test]
fn division_by_zero_reports_the_evaluator_diagnostic() {
    expect_error("(/ 1 0)", "Division by zero");
}

#[test]
fn checked_addition_reports_overflow_as_a_diagnostic() {
    expect_error("(+ 9223372036854775807 1)", "Arithmetic overflow");
}

#[test]
fn most_negative_integer_is_computed_and_written() {
    expect_line(
        "(- 0 9223372036854775807 1)",
        "-9223372036854775808\n",
    );
}

#[test]
fn unterminated_list_reports_a_parse_error() {
    expect_error("(+ 1", "Parse error");
}

#[test]
fn deep_non_tail_recursion_completes() {
    expect_line(
        "(define! f (lambda (n) (if (< n 1) 0 (+ 1 (f (- n 1)))))) (f 200)",
        "200\n",
    );
}

#[test]
fn string_value_read_from_the_arena_displays_unquoted() {
    let lisp: Box<grift::Lisp<10000>> = Box::new(grift::Lisp::new());
    let value = lisp.eval("\"hello\"").expect("evaluation failed");
    let shape = read_shape(&lisp, &value);
    assert_eq!(render(RenderMode::Display, &shape), "hello");
    assert_eq!(render(RenderMode::Write, &shape), "\"hello\"");
}

#[test]
fn character_value_renders_under_both_notations() {
    let lisp: Box<grift::Lisp<10000>> = Box::new(grift::Lisp::new());
    let shape = read_shape(&lisp, &grift::Value::Char('x'));
    assert_eq!(render(RenderMode::Display, &shape), "x");
    assert_eq!(render(RenderMode::Write, &shape), "#\\x");
}

#[test]
fn number_value_keeps_the_evaluator_literal_form() {
    let lisp: Box<grift::Lisp<10000>> = Box::new(grift::Lisp::new());
    let shape = read_shape(&lisp, &grift::Value::Number(-7));
    assert_eq!(render(RenderMode::Display, &shape), "-7");
    assert_eq!(render(RenderMode::Write, &shape), "-7");
}

#[test]
fn text_classification_reads_each_character_position() {
    let lisp: Box<grift::Lisp<10000>> = Box::new(grift::Lisp::new());
    let value = lisp.eval("\"ok\"").expect("evaluation failed");
    let grift::Value::String { len, data } = value else {
        panic!("expected a string value");
    };
    let shape = shape_of(&lisp, &value, Class::Text { len, data });
    match &shape {
        Shape::Text(chars) => assert_eq!(chars.as_slice(), &[Some('o'), Some('k')]),
        _ => panic!("expected a text shape"),
    }
    assert_eq!(render(RenderMode::Display, &shape), "ok");
}

#[test]
fn each_classification_maps_to_its_own_shape() {
    let lisp: Box<grift::Lisp<10000>> = Box::new(grift::Lisp::new());
    let nil = grift::Value::Nil;
    assert!(matches!(shape_of(&lisp, &nil, Class::Empty), Shape::Fresh));
    let inert = grift::Value::Inert;
    assert!(matches!(shape_of(&lisp, &inert, Class::NoValue), Shape::NoValue));
    let ch = grift::Value::Char('q');
    assert!(matches!(shape_of(&lisp, &ch, Class::Glyph('q')), Shape::Glyph('q')));
    let num = grift::Value::Number(9);
    match shape_of(&lisp, &num, Class::Other) {
        Shape::Literal(text) => assert_eq!(text, "9"),
        _ => panic!("expected the evaluator's literal notation"),
    }
}

#[test]
fn final_output_skips_only_the_sentinel() {
    assert!(final_output(&Shape::NoValue).is_none());
    assert_eq!(final_output(&Shape::Glyph('x')), Some(String::from("#\\x\n")));
}

#[test]
fn success_exits_zero_and_every_failure_exits_one() {
    assert_eq!(ExitOutcome::Success.code(), 0);
    assert_eq!(ExitOutcome::ReadFailure.code(), 1);
    assert_eq!(ExitOutcome::SetupFailure.code(), 1);
    assert_eq!(ExitOutcome::EvaluationFailure.code(), 1);
    assert_eq!(ExitOutcome::ExecutionFailure.code(), 1);
}

#[test]
fn read_failure_diagnostic_references_the_path() {
    assert_eq!(
        read_failure_message("prog.scm", "no such file"),
        "Error reading prog.scm: no such file"
    );
}

#[test]
fn usage_line_names_the_program() {
    assert_eq!(usage_message("runner"), "Usage: runner <scheme-file.scm>");
}
