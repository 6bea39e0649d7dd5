//! Quoting text as a JavaScript string literal.

use vstd::prelude::*;
use vstd::std_specs::iter::IteratorSpec;

verus! {

/// What stands for `c` inside a single-quoted JavaScript string literal:
/// a backslash escape for the line terminators, the apostrophe and the
/// backslash, and the character itself otherwise.
pub open spec fn escaped_char(c: char) -> Seq<char> {
    if c == '\n' {
        seq!['\\', 'n']
    } else if c == '\r' {
        seq!['\\', 'r']
    } else if c == '\'' {
        seq!['\\', '\'']
    } else if c == '\\' {
        seq!['\\', '\\']
    } else if c == '\u{2028}' {
        seq!['\\', 'u', '2', '0', '2', '8']
    } else if c == '\u{2029}' {
        seq!['\\', 'u', '2', '0', '2', '9']
    } else {
        seq![c]
    }
}

/// The characters of `text`, each replaced by what stands for it.
pub open spec fn escaped_text(text: Seq<char>) -> Seq<char>
    decreases text.len(),
{
    if text.len() == 0 {
        Seq::empty()
    } else {
        escaped_text(text.drop_last()) + escaped_char(text.last())
    }
}

/// The single-quoted JavaScript string literal whose value is `text`.
pub open spec fn js_literal(text: Seq<char>) -> Seq<char> {
    seq!['\''] + escaped_text(text) + seq!['\'']
}

/// Quotes `text` as a JavaScript string literal, so that a script can be
/// built around it.
pub fn escape(text: &str) -> (r: String)
    ensures
        r@ == js_literal(text@),
{
    let mut out = String::new();
    out.push('\'');
    for c in it: text.chars()
        invariant
            it.seq() == text@,
            out@ == seq!['\''] + escaped_text(text@.take(it.index() as int)),
    {
        proof {
            let before = text@.take(it.index() as int);
            let after = text@.take(it.index() as int + 1);
            assert(after.drop_last() =~= before);
            assert(after.last() == c);
        }
        if c == '\n' {
            out.push('\\');
            out.push('n');
        } else if c == '\r' {
            out.push('\\');
            out.push('r');
        } else if c == '\'' {
            out.push('\\');
            out.push('\'');
        } else if c == '\\' {
            out.push('\\');
            out.push('\\');
        } else if c == '\u{2028}' {
            out.push('\\');
            out.push('u');
            out.push('2');
            out.push('0');
            out.push('2');
            out.push('8');
        } else if c == '\u{2029}' {
            out.push('\\');
            out.push('u');
            out.push('2');
            out.push('0');
            out.push('2');
            out.push('9');
        } else {
            out.push(c);
        }
        assert(out@ =~= seq!['\''] + escaped_text(text@.take(it.index() as int + 1)));
    }
    assert(text@.take(text@.len() as int) =~= text@);
    out.push('\'');
    out
}

} // verus!
