//! The value renderer: the display-vs-write textualization policy.
//!
//! A value is rendered under one of two notations. *Write* is the literal
//! read-back notation: strings carry quote delimiters, characters carry
//! the `#\` prefix, and every other shape keeps the evaluator's own
//! literal form. *Display* is the human-facing notation: it special-cases
//! strings (raw character content, no delimiters), characters (the bare
//! character), and the terminator (a single newline), and falls back to
//! the write notation unchanged for every other shape.

use vstd::prelude::*;

use crate::host::push_char;

verus! {

/// Which textual notation to use at a call site.
#[derive(Clone, Copy)]
pub enum RenderMode {
    /// Human-facing notation: strings and characters without delimiters.
    Display,
    /// Literal read-back notation, the default for the final result.
    Write,
}

/// The renderer's own model of an arena-resident value: exactly what the
/// rendering policy reads out of a value handle.
pub enum Shape {
    /// A string: the character found at each position, in order; `None`
    /// where the per-index read found no character (such a position is
    /// silently omitted from the rendered text).
    Text(Vec<Option<char>>),
    /// A single character.
    Glyph(char),
    /// The distinguished empty/terminator value: on the display path it
    /// stands for a fresh-line operation.
    Fresh,
    /// The distinguished "no value" sentinel: a final result that prints
    /// no result line at all.
    NoValue,
    /// Every other value shape, already in the evaluator's literal
    /// notation; both modes keep it unchanged.
    Literal(String),
}

/// The characters actually present in a string's per-index reads, in
/// order; absent positions are omitted.
pub open spec fn visible(cs: Seq<Option<char>>) -> Seq<char>
    decreases cs.len(),
{
    if cs.len() == 0 {
        Seq::<char>::empty()
    } else {
        visible(cs.drop_last()) + (match cs.last() {
            Some(c) => seq![c],
            None => Seq::<char>::empty(),
        })
    }
}

/// The write (literal read-back) notation of a shape.
pub open spec fn write_spec(s: Shape) -> Seq<char> {
    match s {
        Shape::Text(cs) => seq!['"'] + visible(cs@) + seq!['"'],
        Shape::Glyph(c) => seq!['#', '\\', c],
        Shape::Fresh => seq!['(', ')'],
        Shape::NoValue => seq!['#', 'i', 'n', 'e', 'r', 't'],
        Shape::Literal(t) => t@,
    }
}

/// The display (human-facing) notation of a shape: strings, characters
/// and the terminator are special-cased; everything else defers to the
/// write notation.
pub open spec fn display_spec(s: Shape) -> Seq<char> {
    match s {
        Shape::Text(cs) => visible(cs@),
        Shape::Glyph(c) => seq![c],
        Shape::Fresh => seq!['\n'],
        _ => write_spec(s),
    }
}

/// What `render` returns for a mode and a shape.
pub open spec fn render_spec(mode: RenderMode, s: Shape) -> Seq<char> {
    match mode {
        RenderMode::Display => display_spec(s),
        RenderMode::Write => write_spec(s),
    }
}

/// Append the present characters of a string's per-index reads to `out`,
/// in position order, omitting absent positions.
fn append_visible(out: &mut String, cs: &Vec<Option<char>>)
    ensures
        final(out)@ == old(out)@ + visible(cs@),
{
    let n = cs.len();
    let mut i: usize = 0;
    while i < n
        invariant
            i <= n,
            n == cs.len(),
            out@ == old(out)@ + visible(cs@.take(i as int)),
        decreases n - i,
    {
        proof {
            assert(cs@.take(i as int + 1).drop_last() =~= cs@.take(i as int));
            assert(cs@.take(i as int + 1).last() == cs@[i as int]);
        }
        match cs[i] {
            Some(c) => {
                push_char(out, c);
                proof {
                    assert(out@ =~= old(out)@ + visible(cs@.take(i as int + 1)));
                }
            },
            None => {
                proof {
                    assert(out@ =~= old(out)@ + visible(cs@.take(i as int + 1)));
                }
            },
        }
        i = i + 1;
    }
    proof {
        assert(cs@.take(n as int) =~= cs@);
    }
}

/// Render a shape in write notation.
fn write_chars(s: &Shape) -> (r: String)
    ensures
        r@ == write_spec(*s),
{
    match s {
        Shape::Text(cs) => {
            let mut out = String::new();
            push_char(&mut out, '"');
            append_visible(&mut out, cs);
            push_char(&mut out, '"');
            proof {
                assert(out@ =~= seq!['"'] + visible(cs@) + seq!['"']);
            }
            out
        },
        Shape::Glyph(c) => {
            let mut out = String::new();
            push_char(&mut out, '#');
            push_char(&mut out, '\\');
            push_char(&mut out, *c);
            proof {
                assert(out@ =~= seq!['#', '\\', *c]);
            }
            out
        },
        Shape::Fresh => {
            let mut out = String::new();
            push_char(&mut out, '(');
            push_char(&mut out, ')');
            proof {
                assert(out@ =~= seq!['(', ')']);
            }
            out
        },
        Shape::NoValue => {
            let mut out = String::new();
            push_char(&mut out, '#');
            push_char(&mut out, 'i');
            push_char(&mut out, 'n');
            push_char(&mut out, 'e');
            push_char(&mut out, 'r');
            push_char(&mut out, 't');
            proof {
                assert(out@ =~= seq!['#', 'i', 'n', 'e', 'r', 't']);
            }
            out
        },
        Shape::Literal(t) => t.clone(),
    }
}

/// Render a shape under the chosen notation.
///
/// The display path special-cases exactly the string, character and
/// terminator shapes; every other shape falls through to the write
/// formatter unchanged.
pub fn render(mode: RenderMode, s: &Shape) -> (r: String)
    ensures
        r@ == render_spec(mode, *s),
{
    match mode {
        RenderMode::Write => write_chars(s),
        RenderMode::Display => match s {
            Shape::Text(cs) => {
                let mut out = String::new();
                append_visible(&mut out, cs);
                proof {
                    assert(out@ =~= visible(cs@));
                }
                out
            },
            Shape::Glyph(c) => {
                let mut out = String::new();
                push_char(&mut out, *c);
                proof {
                    assert(out@ =~= seq![*c]);
                }
                out
            },
            Shape::Fresh => {
                let mut out = String::new();
                push_char(&mut out, '\n');
                proof {
                    assert(out@ =~= seq!['\n']);
                }
                out
            },
            _ => write_chars(s),
        },
    }
}

/// Display mode falls back to the write notation unchanged for every
/// shape that is not a string, a character, or the terminator.
pub proof fn law_display_defers_to_write(s: Shape)
    requires
        !(s is Text),
        !(s is Glyph),
        !(s is Fresh),
    ensures
        display_spec(s) == write_spec(s),
{
}

/// The write notation of a string is its display text surrounded by
/// quote delimiters.
pub proof fn law_text_write_quotes_display(s: Shape)
    requires
        s is Text,
    ensures
        write_spec(s) == seq!['"'] + display_spec(s) + seq!['"'],
{
}

/// The write notation of a character is its display text behind the
/// literal-character prefix.
pub proof fn law_glyph_write_prefixes_display(s: Shape)
    requires
        s is Glyph,
    ensures
        write_spec(s) == seq!['#', '\\'] + display_spec(s),
{
    let c = s->Glyph_0;
    assert(seq!['#', '\\', c] =~= seq!['#', '\\'] + seq![c]);
}

/// The terminator value emits exactly one newline on the display path.
pub proof fn law_terminator_fresh_line(s: Shape)
    requires
        s is Fresh,
    ensures
        display_spec(s) == seq!['\n'],
{
}

} // verus!
