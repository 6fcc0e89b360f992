//! The execution driver: wraps a program's top-level forms into one
//! sequencing form, runs the embedded evaluator on it once, reads the
//! final value out of the arena, and decides the final output and the
//! process exit code.

use vstd::prelude::*;
use vstd::string::StringExecFns;

use grift::ArenaIndex;
use grift::Lisp;
use grift::Value;

use crate::host::Class;
use crate::host::char_at;
use crate::host::classify;
use crate::host::eval_error_of;
use crate::host::eval_program;
use crate::host::literal_form;
use crate::host::push_char;
use crate::render::RenderMode;
use crate::render::Shape;
use crate::render::render;
use crate::render::write_spec;

verus! {

/// What a single run of a program came to.
pub enum Outcome {
    /// Evaluation succeeded; the payload is the final result line
    /// (write notation plus a newline), or `None` when the result was
    /// the "no value" sentinel and no result line is owed.
    Completed(Option<String>),
    /// The evaluator reported an error; the payload is its rendered
    /// description, owed to the error stream.
    EvaluationFailure(String),
}

/// Every way a whole run can end, each mapped to a process exit code.
pub enum ExitOutcome {
    /// The program evaluated without error.
    Success,
    /// The source file could not be read.
    ReadFailure,
    /// The evaluator could not be set up.
    SetupFailure,
    /// The program itself raised an error during evaluation.
    EvaluationFailure,
    /// The isolated worker context terminated abnormally.
    ExecutionFailure,
}

impl ExitOutcome {
    /// The process exit code owed to this outcome: zero exactly on
    /// success, one for every failure.
    pub fn code(&self) -> (r: i32)
        ensures
            (*self is Success) <==> r == 0,
            !(*self is Success) <==> r == 1,
    {
        match self {
            ExitOutcome::Success => 0,
            _ => 1,
        }
    }
}

/// Enclose the source's top-level forms in one `begin` form, so that one
/// evaluator invocation evaluates them all, left to right, as a single
/// unit with a single result.
pub fn wrap_program(source: &str) -> (r: String)
    ensures
        r@ == "(begin "@ + source@ + ")"@,
{
    let mut s = String::new();
    s.append("(begin ");
    s.append(source);
    s.append(")");
    proof {
        assert(s@ =~= "(begin "@ + source@ + ")"@);
    }
    s
}

/// Read a string's characters out of the arena one position at a time:
/// the arena does not guarantee a contiguous native representation, so
/// each position is a random-access read, absent where the read fails.
fn read_text<const N: usize>(lisp: &Lisp<N>, data: &ArenaIndex, len: usize) -> (r: Vec<
    Option<char>,
>)
    ensures
        r@.len() == len,
{
    let mut out: Vec<Option<char>> = Vec::new();
    let mut i: usize = 0;
    while i < len
        invariant
            i <= len,
            out@.len() == i,
        decreases len - i,
    {
        out.push(char_at(lisp, data, i));
        i = i + 1;
    }
    out
}

/// Build the renderer's shape for a value of the given classification:
/// each classification maps to exactly its shape, a string's shape holds
/// one per-index read for each of its character positions, and every
/// other value keeps the evaluator's own literal notation.
pub fn shape_of<const N: usize>(lisp: &Lisp<N>, v: &Value, c: Class) -> (s: Shape)
    ensures
        (c is Empty ==> s is Fresh),
        (c is NoValue ==> s is NoValue),
        (c matches Class::Glyph(g) ==> s matches Shape::Glyph(g2) && g2 == g),
        (c matches Class::Text { len, data } ==> s matches Shape::Text(cs) && cs@.len() == len),
        (c is Other ==> s is Literal),
{
    match c {
        Class::Empty => Shape::Fresh,
        Class::Text { len, data } => Shape::Text(read_text(lisp, &data, len)),
        Class::Glyph(g) => Shape::Glyph(g),
        Class::NoValue => Shape::NoValue,
        Class::Other => Shape::Literal(literal_form(v)),
    }
}

/// Read everything the rendering policy needs from a final value: its
/// classification, and through `shape_of` the plain contents of the
/// special-cased shapes. The classification of the opaque value is the
/// trusted step; everything after it is `shape_of`'s contract.
pub fn read_shape<const N: usize>(lisp: &Lisp<N>, v: &Value) -> Shape {
    let c = classify(v);
    shape_of(lisp, v, c)
}

/// Decide the final result line: the "no value" sentinel prints nothing,
/// every other result prints its write notation followed by a newline.
pub fn final_output(s: &Shape) -> (r: Option<String>)
    ensures
        ((*s is NoValue) <==> r is None),
        (r is Some ==> r.unwrap()@ == write_spec(*s) + seq!['\n']),
{
    match s {
        Shape::NoValue => None,
        _ => {
            let mut line = render(RenderMode::Write, s);
            push_char(&mut line, '\n');
            Some(line)
        },
    }
}

/// Run one program: wrap its top-level forms, evaluate them as one unit
/// on a fresh interpreter, and turn the evaluator's answer into an
/// outcome. The run completes exactly when evaluating the wrapped source
/// succeeds; a completed run carries a newline-terminated result line or
/// no line at all; a failed run carries exactly the evaluator's own
/// nonempty error description, never reinterpreted.
pub fn run_source<const N: usize>(source: &str) -> (r: Outcome)
    requires
        N >= 10000,
    ensures
        ((r is Completed) <==> eval_error_of("(begin "@ + source@ + ")"@, N as int) is None),
        (r matches Outcome::Completed(Some(line)) ==> line@.len() > 0 && line@.last()
            == '\n'),
        (r matches Outcome::EvaluationFailure(msg) ==> eval_error_of(
            "(begin "@ + source@ + ")"@,
            N as int,
        ) == Some(msg@) && msg@.len() > 0),
{
    let wrapped = wrap_program(source);
    let (lisp, outcome) = eval_program::<N>(wrapped.as_str());
    match outcome {
        Ok(v) => {
            let shape = read_shape(&lisp, &v);
            Outcome::Completed(final_output(&shape))
        },
        Err(m) => Outcome::EvaluationFailure(m),
    }
}

/// The usage line owed to the error stream when the single program
/// argument is missing.
pub fn usage_message(program: &str) -> (r: String)
    ensures
        r@ == "Usage: "@ + program@ + " <scheme-file.scm>"@,
{
    let mut s = String::new();
    s.append("Usage: ");
    s.append(program);
    s.append(" <scheme-file.scm>");
    proof {
        assert(s@ =~= "Usage: "@ + program@ + " <scheme-file.scm>"@);
    }
    s
}

/// The diagnostic owed to the error stream when the source file cannot
/// be read: it names the path and carries the underlying detail.
pub fn read_failure_message(path: &str, detail: &str) -> (r: String)
    ensures
        r@ == "Error reading "@ + path@ + ": "@ + detail@,
{
    let mut s = String::new();
    s.append("Error reading ");
    s.append(path);
    s.append(": ");
    s.append(detail);
    proof {
        assert(s@ =~= "Error reading "@ + path@ + ": "@ + detail@);
    }
    s
}

} // verus!
