//! The trusted boundary around the embedded `grift` evaluator and its
//! arena, and around the one `std` string operation that `vstd` leaves
//! unspecified.
//!
//! Everything the rest of the crate learns about an arena-resident value
//! passes through the small wrappers here; the verified logic takes their
//! results as plain values and is proved for every value they could hand
//! back.

use vstd::prelude::*;

use grift::ArenaIndex;
use grift::Lisp;
use grift::Value;

verus! {

#[verifier::external_type_specification]
#[verifier::external_body]
pub struct ExLisp<const N: usize>(Lisp<N>);

#[verifier::external_type_specification]
#[verifier::external_body]
pub struct ExValue(Value);

#[verifier::external_type_specification]
#[verifier::external_body]
pub struct ExArenaIndex(ArenaIndex);

/// The classification of an arena value that the rendering policy reads:
/// the two special-cased shapes with their plain contents, the two
/// distinguished values, and everything else.
pub enum Class {
    /// The empty list / terminator value.
    Empty,
    /// A string: its character count and the index of its first
    /// character slot.
    Text { len: usize, data: ArenaIndex },
    /// A single character.
    Glyph(char),
    /// The side-effect sentinel (`#inert`): the "no value" result.
    NoValue,
    /// Any other value shape.
    Other,
}

// What one run of the evaluator reports for a given source text and
// arena capacity: `None` when evaluation succeeds, `Some` of the
// description of the evaluator's error when it fails. The evaluator is
// deterministic — a fresh interpreter, no input, no clock, no
// randomness — so the outcome is a function of these two arguments
// alone.
pub uninterp spec fn eval_error_of(src: Seq<char>, cap: int) -> Option<Seq<char>>;

/// Relies on `grift::Lisp::new`, `grift::Lisp::eval` and
/// `grift::ArenaError::as_str`: builds a fresh interpreter whose arena
/// has `N` slots, parses the source text as one expression, and
/// evaluates it in a fresh standard environment, handing back the
/// interpreter (whose arena the result may point into) together with the
/// resulting value, or with the evaluator's error already described by
/// its own formatter. Evaluation is deterministic, so success and the
/// error description are the named `eval_error_of`; every error variant
/// describes itself with a nonempty string.
///
/// Constructing a fresh interpreter allocates the five singletons, the
/// ground and standard environments, and a few hundred cells of builtin
/// bindings before evaluation starts; the capacity floor required here
/// leaves ample room, so the construction paths that panic on a full
/// arena are unreachable. Arena exhaustion during evaluation itself
/// comes back as the evaluator's out-of-memory error (in debug builds
/// grift instead asserts when a garbage-collection root push finds the
/// arena full — its own out-of-memory handling).
///
/// One fault path remains that no precondition can express: grift's
/// division builtin guards only against a zero divisor and divides with
/// the native operator, so a program that divides the most negative
/// integer by minus one overflows inside the call and panics (the other
/// arithmetic builtins are checked and report overflow as an error).
/// The hosting process runs evaluation inside a dedicated worker and
/// reports such an abnormal termination as an execution failure.
#[verifier::external_body]
pub(crate) fn eval_program<const N: usize>(src: &str) -> (r: (Box<Lisp<N>>, Result<Value, String>))
    requires
        N >= 10000,
    ensures
        ((r.1 is Ok) <==> eval_error_of(src@, N as int) is None),
        (r.1 matches Err(m) ==> eval_error_of(src@, N as int) == Some(m@) && m@.len() > 0),
{
    let lisp: Box<Lisp<N>> = Box::new(Lisp::new());
    let outcome = match lisp.eval(src) {
        Ok(value) => Ok(value),
        Err(e) => Err(e.as_str().to_string()),
    };
    (lisp, outcome)
}

/// Relies on the public variants of `grift::Value`: tells them apart and
/// moves out the fields the rendering policy reads, nothing more.
#[verifier::external_body]
pub(crate) fn classify(v: &Value) -> Class {
    match *v {
        Value::Nil => Class::Empty,
        Value::String { len, data } => Class::Text { len, data },
        Value::Char(c) => Class::Glyph(c),
        Value::Inert => Class::NoValue,
        Value::Boolean(_) | Value::Number(_) | Value::Symbol(_) | Value::Cons { .. }
        | Value::Operative { .. } | Value::Applicative(_) | Value::Builtin(_)
        | Value::Environment { .. } | Value::Ignore => Class::Other,
    }
}

/// Relies on `grift_arena::ArenaIndex::offset` and `grift::Lisp::get`: a
/// string's characters sit at consecutive arena slots starting at its
/// data index, so position `i` reads slot `data + i`. Any failed or
/// non-character read comes back as `None` (an absent character).
#[verifier::external_body]
pub(crate) fn char_at<const N: usize>(lisp: &Lisp<N>, data: &ArenaIndex, i: usize) -> Option<char> {
    match data.offset(i) {
        Some(slot) => match lisp.get(slot) {
            Ok(Value::Char(c)) => Some(c),
            _ => None,
        },
        None => None,
    }
}

/// Relies on the `core::fmt::Display` impl of `grift::Value`: the
/// evaluator's own literal notation for a value shape, read from the
/// value alone (no arena access); every notation is at least one
/// character.
#[verifier::external_body]
pub(crate) fn literal_form(v: &Value) -> (r: String)
    ensures
        r@.len() > 0,
{
    format!("{}", v)
}

/// Relies on `String::push`: appends exactly one character.
#[verifier::external_body]
pub(crate) fn push_char(s: &mut String, c: char)
    ensures
        final(s)@ == old(s)@ + seq![c],
{
    s.push(c);
}

} // verus!
