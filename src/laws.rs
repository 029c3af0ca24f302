//! Properties that hold of every text and every scan.

use vstd::prelude::*;
use crate::halstead::{difficulty_denominator, difficulty_numerator};
use crate::lexical::LexicalCounts;
use crate::scanner::{classes_in, comment_texts, doc_above, functions_in, run_start};
use crate::text::{joined, lemma_pieces, lines_of, newline_count};

verus! {

/// A text has one line per newline character, and one more where it ends
/// in a piece that no newline closes.
pub proof fn lemma_line_count(s: Seq<char>)
    ensures
        lines_of(s).len() == newline_count(s) + if s.len() > 0 && s.last() != '\n' {
            1nat
        } else {
            0nat
        },
{
    lemma_pieces(s);
}

/// A declaration on line `i` (counted from 0) has no documentation exactly
/// when it is the first line or the line above it is not a comment.
pub proof fn lemma_doc_absent(lines: Seq<Seq<char>>, i: int)
    requires
        0 <= i < lines.len(),
    ensures
        doc_above(comment_texts(lines), i) is None <==> (i == 0 || comment_texts(lines)[i
            - 1] is None),
{
    lemma_run_start(comment_texts(lines), i);
}

/// The comment run above line `i` starts at or above it, and at `i` itself
/// exactly when the line above is no comment.
pub proof fn lemma_run_start(t: Seq<Option<Seq<char>>>, i: int)
    requires
        0 <= i <= t.len(),
    ensures
        0 <= run_start(t, i) <= i,
        (run_start(t, i) == i) <==> (i == 0 || t[i - 1] is None),
    decreases i,
{
    if i > 0 {
        lemma_run_start(t, i - 1);
    }
}

/// Every class found carries, as documentation, the comment run above its
/// own line, and none where the line above is no comment.
pub proof fn lemma_class_docs(lines: Seq<Seq<char>>, n: int)
    requires
        0 <= n <= lines.len(),
    ensures
        forall|k: int|
            0 <= k < classes_in(lines, n).len() ==> {
                let c = #[trigger] classes_in(lines, n)[k];
                &&& 1 <= c.line <= n
                &&& c.doc == doc_above(comment_texts(lines), c.line - 1)
                &&& (c.doc is None <==> (c.line == 1 || comment_texts(lines)[c.line - 2] is None))
            },
    decreases n,
{
    if n > 0 {
        lemma_class_docs(lines, n - 1);
        lemma_doc_absent(lines, n - 1);
        assert forall|k: int| 0 <= k < classes_in(lines, n - 1).len() implies #[trigger] classes_in(
            lines,
            n,
        )[k] == classes_in(lines, n - 1)[k] by {}
    }
}

/// Every function found carries, as documentation, the comment run above
/// its own line, and none where the line above is no comment.
pub proof fn lemma_function_docs(lines: Seq<Seq<char>>, n: int)
    requires
        0 <= n <= lines.len(),
    ensures
        forall|k: int|
            0 <= k < functions_in(lines, n).len() ==> {
                let f = #[trigger] functions_in(lines, n)[k];
                &&& 1 <= f.line <= n
                &&& f.doc == doc_above(comment_texts(lines), f.line - 1)
                &&& (f.doc is None <==> (f.line == 1 || comment_texts(lines)[f.line - 2] is None))
            },
    decreases n,
{
    if n > 0 {
        lemma_function_docs(lines, n - 1);
        lemma_doc_absent(lines, n - 1);
        assert forall|k: int| 0 <= k < functions_in(lines, n - 1).len() implies #[trigger] functions_in(
            lines,
            n,
        )[k] == functions_in(lines, n - 1)[k] by {}
    }
}

/// Three comment lines `a`, `b`, `c`, top to bottom, directly above line
/// `i`, with no comment above them, document it as `a<br>b<br>c`.
pub proof fn lemma_three_comments(
    lines: Seq<Seq<char>>,
    i: int,
    a: Seq<char>,
    b: Seq<char>,
    c: Seq<char>,
)
    requires
        3 <= i <= lines.len(),
        comment_texts(lines)[i - 3] == Some(a),
        comment_texts(lines)[i - 2] == Some(b),
        comment_texts(lines)[i - 1] == Some(c),
        i == 3 || comment_texts(lines)[i - 4] is None,
    ensures
        doc_above(comment_texts(lines), i) == Some(a + "<br>"@ + b + "<br>"@ + c),
{
    let t = comment_texts(lines);
    assert(run_start(t, i - 3) == i - 3);
    assert(run_start(t, i - 2) == i - 3);
    assert(run_start(t, i - 1) == i - 3);
    assert(run_start(t, i) == i - 3);
    let parts = Seq::new(3, |m: int| t[i - 3 + m]->Some_0);
    assert(parts.drop_last().drop_last() =~= seq![a]);
    assert(parts.drop_last() =~= seq![a, b]);
    assert(joined(parts.drop_last().drop_last(), "<br>"@) == a);
    assert(joined(parts.drop_last(), "<br>"@) == a + "<br>"@ + b);
}

/// With no operators, difficulty is zero over a non-zero denominator
/// wherever there is an operand; with no distinct operand the fraction
/// has a zero denominator, and its value is not finite.
pub proof fn lemma_difficulty_degenerate(c: LexicalCounts)
    ensures
        c.distinct_operators == 0 ==> difficulty_numerator(c) == 0,
        c.distinct_operators == 0 && c.distinct_operands > 0 ==> difficulty_denominator(c) > 0,
        c.distinct_operands == 0 ==> difficulty_denominator(c) == 0,
{
}

/// A token sequence has no distinct token exactly when it is empty.
pub proof fn lemma_no_distinct_tokens(tokens: Seq<Seq<char>>)
    ensures
        (tokens.to_set().len() == 0) == (tokens.len() == 0),
{
    broadcast use vstd::seq_lib::group_seq_properties;

    if tokens.len() > 0 {
        vstd::seq_lib::seq_to_set_is_finite(tokens);
        assert(tokens.to_set().contains(tokens[0]));
        if tokens.to_set().len() == 0 {
            tokens.to_set().lemma_len0_is_empty();
        }
    } else {
        assert(tokens.to_set() =~= Set::empty());
    }
}

} // verus!
