//! Everything that is learnt of one file's text.

use vstd::prelude::*;
use crate::lexical::{
    LexicalCounts,
    TokenPatterns,
    count_operators_and_operands,
    operands_in,
    operators_in,
};
use crate::scanner::{
    Class,
    Function,
    Scanner,
    classes_in,
    extract_classes_and_functions,
    functions_in,
};
use crate::text::lines_of;

verus! {

/// The declarations and token counts of one file.
pub struct FileAnalysis {
    pub line_count: usize,
    pub classes: Vec<Class>,
    pub functions: Vec<Function>,
    pub counts: LexicalCounts,
}

/// The compiled expressions that an analysis needs.
pub struct Analyzer {
    scanner: Scanner,
    tokens: TokenPatterns,
}

impl Analyzer {
    pub closed spec fn wf(&self) -> bool {
        self.scanner.wf() && self.tokens.wf()
    }

    /// Compiles every expression; `None` where the regex crate refuses one.
    pub fn new() -> (r: Option<Analyzer>)
        ensures
            r matches Some(a) ==> a.wf(),
    {
        match (Scanner::new(), TokenPatterns::new()) {
            (Some(scanner), Some(tokens)) => Some(Analyzer { scanner, tokens }),
            _ => None,
        }
    }

    /// Scans and counts `content`.
    pub fn analyze(&self, content: &str) -> (r: FileAnalysis)
        requires
            self.wf(),
        ensures
            r.line_count == lines_of(content@).len(),
            r.classes@.map_values(|c: Class| c@) == classes_in(
                lines_of(content@),
                r.line_count as int,
            ),
            r.functions@.map_values(|f: Function| f@) == functions_in(
                lines_of(content@),
                r.line_count as int,
            ),
            r.counts.distinct_operators == operators_in(content@).to_set().len(),
            r.counts.distinct_operands == operands_in(content@).to_set().len(),
            r.counts.total_operators == operators_in(content@).len(),
            r.counts.total_operands == operands_in(content@).len(),
    {
        let (line_count, classes, functions) = extract_classes_and_functions(
            &self.scanner,
            content,
        );
        let counts = count_operators_and_operands(&self.tokens, content);
        FileAnalysis { line_count, classes, functions, counts }
    }
}

} // verus!
