//! Finding class and function declarations, and the comments above them.

use vstd::prelude::*;
use crate::patterns::{Pattern, capture_of, trimmed, trim_text};
use crate::text::{joined, lines_of, split_lines, join};

verus! {

/// A function declaration found on one line.
pub struct Function {
    /// The name: the identifier just before the argument list.
    pub name: String,
    /// The raw text between the parentheses.
    pub arguments: String,
    /// The line's number, counted from 1.
    pub line: usize,
    /// The comment lines just above, joined with `<br>`.
    pub doc: Option<String>,
}

/// A class declaration found on one line.
pub struct Class {
    /// The identifier after `class`.
    pub name: String,
    /// Functions listed under the class. Nesting is not tracked, so the
    /// scanner leaves this empty and lists every function at top level.
    pub functions: Vec<Function>,
    /// The line's number, counted from 1.
    pub line: usize,
    /// The comment lines just above, joined with `<br>`.
    pub doc: Option<String>,
}

/// A function declaration as a mathematical value.
pub struct FunctionModel {
    pub name: Seq<char>,
    pub arguments: Seq<char>,
    pub line: nat,
    pub doc: Option<Seq<char>>,
}

/// A class declaration as a mathematical value.
pub struct ClassModel {
    pub name: Seq<char>,
    pub functions: Seq<FunctionModel>,
    pub line: nat,
    pub doc: Option<Seq<char>>,
}

/// The view of an optional string.
pub open spec fn opt_view(o: Option<String>) -> Option<Seq<char>> {
    match o {
        Some(s) => Some(s@),
        None => None,
    }
}

impl View for Function {
    type V = FunctionModel;

    open spec fn view(&self) -> FunctionModel {
        FunctionModel {
            name: self.name@,
            arguments: self.arguments@,
            line: self.line as nat,
            doc: opt_view(self.doc),
        }
    }
}

impl View for Class {
    type V = ClassModel;

    open spec fn view(&self) -> ClassModel {
        ClassModel {
            name: self.name@,
            functions: self.functions@.map_values(|f: Function| f@),
            line: self.line as nat,
            doc: opt_view(self.doc),
        }
    }
}

/// `class` followed by an identifier, which is captured.
pub open spec fn class_source() -> Seq<char> {
    "class (\\w+)"@
}

/// A return type (an identifier, maybe followed by `*`, `&` or `<T>`), the
/// captured name, and the captured text of a parenthesised argument list
/// without nested parentheses.
pub open spec fn function_source() -> Seq<char> {
    "\\w+(?:\\s*[\\*\\&]|\\s*<\\w+>)?\\s+(\\w+)\\s*\\(([^)]*)\\)"@
}

/// A line that holds only a `//` comment; the text after `//` is captured.
pub open spec fn line_comment_source() -> Seq<char> {
    "^\\s*//(.*)$"@
}

/// A `/* ... */` comment closed on the same line; its inside is captured.
pub open spec fn block_comment_source() -> Seq<char> {
    "/\\*([\\s\\S]*?)\\*/"@
}

/// The text of `line` taken as a comment: what follows `//` on a line that
/// holds only such a comment, else what a `/* ... */` on it encloses,
/// trimmed; `None` where the line is neither.
pub open spec fn comment_text(line: Seq<char>) -> Option<Seq<char>> {
    match capture_of(line_comment_source(), line, 1) {
        Some(t) => Some(trimmed(t)),
        None => match capture_of(block_comment_source(), line, 1) {
            Some(t) => Some(trimmed(t)),
            None => None,
        },
    }
}

/// The name of a class declared on `line`.
pub open spec fn class_name(line: Seq<char>) -> Option<Seq<char>> {
    capture_of(class_source(), line, 1)
}

/// The name and the argument text of a function declared on `line`.
pub open spec fn function_parts(line: Seq<char>) -> Option<(Seq<char>, Seq<char>)> {
    match capture_of(function_source(), line, 1) {
        Some(n) => Some(
            (
                n,
                match capture_of(function_source(), line, 2) {
                    Some(a) => a,
                    None => Seq::empty(),
                },
            ),
        ),
        None => None,
    }
}

/// The index of the topmost line of the unbroken run of comment lines that
/// ends just above line `i` (`i` itself where there is none).
pub open spec fn run_start(texts: Seq<Option<Seq<char>>>, i: int) -> int
    decreases i,
{
    if i <= 0 {
        0
    } else if texts[i - 1] is Some {
        run_start(texts, i - 1)
    } else {
        i
    }
}

/// The documentation of a declaration on line `i`: the comment texts of the
/// run above it, top to bottom, joined with `<br>`; `None` for no run.
pub open spec fn doc_above(texts: Seq<Option<Seq<char>>>, i: int) -> Option<Seq<char>> {
    let k = run_start(texts, i);
    if k == i {
        None
    } else {
        Some(joined(Seq::new((i - k) as nat, |m: int| texts[k + m]->Some_0), "<br>"@))
    }
}

/// The comment text of each line, in order.
pub open spec fn comment_texts(lines: Seq<Seq<char>>) -> Seq<Option<Seq<char>>> {
    lines.map_values(|l: Seq<char>| comment_text(l))
}

/// The classes declared on the first `n` lines, in order.
pub open spec fn classes_in(lines: Seq<Seq<char>>, n: int) -> Seq<ClassModel>
    decreases n,
{
    if n <= 0 {
        Seq::empty()
    } else {
        let prev = classes_in(lines, n - 1);
        match class_name(lines[n - 1]) {
            Some(name) => prev.push(
                ClassModel {
                    name,
                    functions: Seq::empty(),
                    line: n as nat,
                    doc: doc_above(comment_texts(lines), n - 1),
                },
            ),
            None => prev,
        }
    }
}

/// The functions declared on the first `n` lines, in order.
pub open spec fn functions_in(lines: Seq<Seq<char>>, n: int) -> Seq<FunctionModel>
    decreases n,
{
    if n <= 0 {
        Seq::empty()
    } else {
        let prev = functions_in(lines, n - 1);
        match function_parts(lines[n - 1]) {
            Some(parts) => prev.push(
                FunctionModel {
                    name: parts.0,
                    arguments: parts.1,
                    line: n as nat,
                    doc: doc_above(comment_texts(lines), n - 1),
                },
            ),
            None => prev,
        }
    }
}

/// The four expressions that declarations and comments are matched with.
pub struct Scanner {
    class_re: Pattern,
    function_re: Pattern,
    line_comment_re: Pattern,
    block_comment_re: Pattern,
}

impl Scanner {
    pub closed spec fn wf(&self) -> bool {
        &&& self.class_re.source() == class_source()
        &&& self.function_re.source() == function_source()
        &&& self.line_comment_re.source() == line_comment_source()
        &&& self.block_comment_re.source() == block_comment_source()
    }

    /// Compiles the four expressions; `None` where the regex crate refuses one.
    pub fn new() -> (r: Option<Scanner>)
        ensures
            r matches Some(s) ==> s.wf(),
    {
        let class_re = Pattern::new("class (\\w+)");
        let function_re = Pattern::new(
            "\\w+(?:\\s*[\\*\\&]|\\s*<\\w+>)?\\s+(\\w+)\\s*\\(([^)]*)\\)",
        );
        let line_comment_re = Pattern::new("^\\s*//(.*)$");
        let block_comment_re = Pattern::new("/\\*([\\s\\S]*?)\\*/");
        match (class_re, function_re, line_comment_re, block_comment_re) {
            (Some(c), Some(f), Some(l), Some(b)) => Some(
                Scanner { class_re: c, function_re: f, line_comment_re: l, block_comment_re: b },
            ),
            _ => None,
        }
    }

    /// The comment text of `line`, as `comment_text` gives it.
    pub fn comment_text(&self, line: &str) -> (r: Option<String>)
        requires
            self.wf(),
        ensures
            opt_view(r) == comment_text(line@),
    {
        match self.line_comment_re.capture(line, 1) {
            Some(t) => Some(trim_text(t.as_str())),
            None => match self.block_comment_re.capture(line, 1) {
                Some(t) => Some(trim_text(t.as_str())),
                None => None,
            },
        }
    }
}

/// The documentation of a declaration on line `i`, given the comment text
/// of every line: the run above is walked bottom to top, then put back in
/// reading order and joined.
pub fn leading_doc(texts: &Vec<Option<String>>, i: usize) -> (r: Option<String>)
    requires
        i <= texts@.len(),
    ensures
        opt_view(r) == doc_above(texts@.map_values(|o: Option<String>| opt_view(o)), i as int),
{
    let ghost t = texts@.map_values(|o: Option<String>| opt_view(o));
    let mut collected: Vec<String> = Vec::new();
    let mut j: usize = i;
    while j > 0 && texts[j - 1].is_some()
        invariant
            j <= i <= texts@.len(),
            t == texts@.map_values(|o: Option<String>| opt_view(o)),
            run_start(t, i as int) == run_start(t, j as int),
            collected@.len() == i - j,
            forall|m: int|
                0 <= m < collected@.len() ==> #[trigger] collected@[m]@ == t[i - 1 - m]->Some_0,
        decreases j,
    {
        match &texts[j - 1] {
            Some(c) => {
                collected.push(c.clone());
            },
            None => {},
        }
        j = j - 1;
    }
    if collected.len() == 0 {
        return None;
    }
    let mut ordered: Vec<String> = Vec::new();
    let mut m: usize = collected.len();
    while m > 0
        invariant
            m <= collected@.len(),
            ordered@.len() == collected@.len() - m,
            forall|q: int|
                0 <= q < ordered@.len() ==> #[trigger] ordered@[q]@ == collected@[collected@.len()
                    - 1 - q]@,
        decreases m,
    {
        ordered.push(collected[m - 1].clone());
        m = m - 1;
    }
    let ghost k = run_start(t, i as int);
    assert(ordered@.map_values(|p: String| p@) =~= Seq::new(
        (i - k) as nat,
        |q: int| t[k + q]->Some_0,
    ));
    Some(join(&ordered, "<br>"))
}

/// Scans the lines of `content`: the number of lines, the classes and the
/// functions declared, each with the comment run just above it.
pub fn extract_classes_and_functions(scanner: &Scanner, content: &str) -> (r: (
    usize,
    Vec<Class>,
    Vec<Function>,
))
    requires
        scanner.wf(),
    ensures
        r.0 == lines_of(content@).len(),
        r.1@.map_values(|c: Class| c@) == classes_in(lines_of(content@), r.0 as int),
        r.2@.map_values(|f: Function| f@) == functions_in(lines_of(content@), r.0 as int),
{
    let lines = split_lines(content);
    let ghost ls = lines_of(content@);
    let line_count = lines.len();
    let mut texts: Vec<Option<String>> = Vec::new();
    let mut i: usize = 0;
    while i < lines.len()
        invariant
            i <= lines@.len(),
            lines@.map_values(|l: String| l@) == ls,
            texts@.len() == i,
            scanner.wf(),
            forall|j: int|
                0 <= j < i ==> #[trigger] opt_view(texts@[j]) == comment_text(ls[j]),
        decreases lines@.len() - i,
    {
        let t = scanner.comment_text(lines[i].as_str());
        texts.push(t);
        i = i + 1;
    }
    assert(texts@.map_values(|o: Option<String>| opt_view(o)) =~= comment_texts(ls));
    let mut classes: Vec<Class> = Vec::new();
    let mut functions: Vec<Function> = Vec::new();
    let mut index: usize = 0;
    while index < lines.len()
        invariant
            index <= lines@.len(),
            line_count == lines@.len(),
            lines@.map_values(|l: String| l@) == ls,
            texts@.len() == lines@.len(),
            texts@.map_values(|o: Option<String>| opt_view(o)) == comment_texts(ls),
            scanner.wf(),
            classes@.map_values(|c: Class| c@) == classes_in(ls, index as int),
            functions@.map_values(|f: Function| f@) == functions_in(ls, index as int),
        decreases lines@.len() - index,
    {
        let line = lines[index].as_str();
        assert(line@ == ls[index as int]);
        match scanner.class_re.capture(line, 1) {
            Some(name) => {
                let doc = leading_doc(&texts, index);
                let c = Class { name, functions: Vec::new(), line: index + 1, doc };
                assert(c@.functions =~= Seq::<FunctionModel>::empty());
                classes.push(c);
            },
            None => {},
        }
        match scanner.function_re.capture(line, 1) {
            Some(name) => {
                let arguments = match scanner.function_re.capture(line, 2) {
                    Some(a) => a,
                    None => String::new(),
                };
                let doc = leading_doc(&texts, index);
                functions.push(Function { name, arguments, line: index + 1, doc });
            },
            None => {},
        }
        index = index + 1;
        assert(classes@.map_values(|c: Class| c@) =~= classes_in(ls, index as int));
        assert(functions@.map_values(|f: Function| f@) =~= functions_in(ls, index as int));
    }
    (line_count, classes, functions)
}

} // verus!
