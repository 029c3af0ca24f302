use halstead_doc::analysis::Analyzer;
use halstead_doc::halstead::{difficulty, program_length, vocabulary};
use halstead_doc::lexical::{distinct_count, same_chars, LexicalCounts};
use halstead_doc::render::generate_html;
use halstead_doc::scanner::{Class, Function};
use halstead_doc::text::{decimal, join, split_lines};
use halstead_doc::patterns::Pattern;

fn analyzer() -> Analyzer {
    Analyzer::new().expect("the expressions compile")
}

#[test]
fn function_with_line_comment() {
    let a = analyzer().analyze("// adds two numbers\nint add(int a, int b)\n{\n}\n");
    assert_eq!(a.functions.len(), 1);
    let f = &a.functions[0];
    assert_eq!(f.name, "add");
    assert_eq!(f.line, 2);
    assert_eq!(f.arguments, "int a, int b");
    assert_eq!(f.doc.as_deref(), Some("adds two numbers"));
    assert!(a.classes.is_empty());
}

#[test]
fn class_without_comment() {
    let a = analyzer().analyze("class Shape\n{\n};\n");
    assert_eq!(a.classes.len(), 1);
    let c = &a.classes[0];
    assert_eq!(c.name, "Shape");
    assert_eq!(c.line, 1);
    assert_eq!(c.doc, None);
    assert!(c.functions.is_empty());
}

#[test]
fn three_comments_keep_their_order() {
    let text = "int x;\n// A\n/* B */\n//   C  \nclass Widget : public Base\n";
    let a = analyzer().analyze(text);
    assert_eq!(a.classes.len(), 1);
    assert_eq!(a.classes[0].name, "Widget");
    assert_eq!(a.classes[0].line, 5);
    assert_eq!(a.classes[0].doc.as_deref(), Some("A<br>B<br>C"));
}

#[test]
fn blank_line_breaks_the_comment_run() {
    let text = "// far away\n\nvoid run(int n)\n// near\nvoid stop()\n";
    let a = analyzer().analyze(text);
    assert_eq!(a.functions.len(), 2);
    assert_eq!(a.functions[0].name, "run");
    assert_eq!(a.functions[0].arguments, "int n");
    assert_eq!(a.functions[0].doc, None);
    assert_eq!(a.functions[1].name, "stop");
    assert_eq!(a.functions[1].arguments, "");
    assert_eq!(a.functions[1].doc.as_deref(), Some("near"));
}

#[test]
fn unclosed_block_comment_stops_the_walk() {
    let text = "/* open\nstill open */\n/* shut */\nint f(char c)\n";
    let a = analyzer().analyze(text);
    assert_eq!(a.functions.len(), 1);
    assert_eq!(a.functions[0].doc.as_deref(), Some("shut"));
}

#[test]
fn declaration_on_first_line_has_no_doc() {
    let a = analyzer().analyze("class First\n// after\n");
    assert_eq!(a.classes[0].doc, None);
    assert_eq!(a.line_count, 2);
}

#[test]
fn one_line_may_declare_both() {
    let a = analyzer().analyze("// both\nclass Pair make(int a)\n");
    assert_eq!(a.classes.len(), 1);
    assert_eq!(a.classes[0].name, "Pair");
    assert_eq!(a.functions.len(), 1);
    assert_eq!(a.functions[0].name, "make");
    assert_eq!(a.functions[0].doc.as_deref(), Some("both"));
    assert_eq!(a.classes[0].doc.as_deref(), Some("both"));
}

#[test]
fn pointer_return_type() {
    let a = analyzer().analyze("char* name(void)\nvector<int> items(size_t n)\n");
    assert_eq!(a.functions.len(), 2);
    assert_eq!(a.functions[0].name, "name");
    assert_eq!(a.functions[0].arguments, "void");
    assert_eq!(a.functions[1].name, "items");
    assert_eq!(a.functions[1].arguments, "size_t n");
}

#[test]
fn line_counts() {
    let an = analyzer();
    assert_eq!(an.analyze("").line_count, 0);
    assert_eq!(an.analyze("a").line_count, 1);
    assert_eq!(an.analyze("a\n").line_count, 1);
    assert_eq!(an.analyze("a\nb").line_count, 2);
    assert_eq!(an.analyze("a\n\nb\n").line_count, 3);
    assert_eq!(an.analyze("\n").line_count, 1);
    assert_eq!(an.analyze("a\r\nb\r\n").line_count, 2);
}

#[test]
fn split_lines_strips_carriage_returns() {
    let lines = split_lines("one\r\ntwo\n\nthree\r");
    assert_eq!(lines, vec!["one", "two", "", "three\r"]);
    assert!(split_lines("").is_empty());
    assert_eq!(split_lines("x\n"), vec!["x"]);
}

#[test]
fn join_with_separator() {
    let parts = vec![String::from("a"), String::from("bc"), String::from("")];
    assert_eq!(join(&parts, "<br>"), "a<br>bc<br>");
    assert_eq!(join(&Vec::new(), "<br>"), "");
    assert_eq!(join(&vec![String::from("x")], ", "), "x");
}

#[test]
fn decimal_writing() {
    assert_eq!(decimal(0), "0");
    assert_eq!(decimal(7), "7");
    assert_eq!(decimal(10), "10");
    assert_eq!(decimal(1234567890), "1234567890");
    assert_eq!(decimal(usize::MAX), usize::MAX.to_string());
}

#[test]
fn token_counts() {
    let c = analyzer().analyze("a = b + c;").counts;
    assert_eq!(
        c,
        LexicalCounts { distinct_operators: 2, distinct_operands: 3, total_operators: 2, total_operands: 3 }
    );
    let c = analyzer().analyze("x == y && x -> y").counts;
    assert_eq!(c.distinct_operators, 3);
    assert_eq!(c.total_operators, 3);
    assert_eq!(c.distinct_operands, 2);
    assert_eq!(c.total_operands, 4);
}

#[test]
fn tokens_inside_comments_count() {
    let c = analyzer().analyze("// i = i + 1\nint i").counts;
    assert_eq!(c.total_operators, 3);
    assert_eq!(c.distinct_operators, 3);
    assert_eq!(c.total_operands, 5);
    assert_eq!(c.distinct_operands, 3);
}

#[test]
fn distinct_sequences() {
    let items = vec![vec!['a'], vec!['b', 'c'], vec!['a'], vec![], vec![]];
    assert_eq!(distinct_count(&items), 3);
    assert_eq!(distinct_count(&Vec::new()), 0);
    assert!(same_chars(&vec!['x', 'y'], &vec!['x', 'y']));
    assert!(!same_chars(&vec!['x', 'y'], &vec!['x']));
    assert!(!same_chars(&vec!['x', 'y'], &vec!['x', 'z']));
}

#[test]
fn difficulty_fraction() {
    let c = LexicalCounts { distinct_operators: 3, distinct_operands: 4, total_operators: 5, total_operands: 10 };
    let d = difficulty(&c);
    assert_eq!(d.numerator, 30);
    assert_eq!(d.denominator, 8);
    assert_eq!(program_length(&c), 15);
    assert_eq!(vocabulary(&c), 7);
    let big = LexicalCounts {
        distinct_operators: usize::MAX,
        distinct_operands: usize::MAX,
        total_operators: usize::MAX,
        total_operands: usize::MAX,
    };
    assert_eq!(difficulty(&big).numerator, (usize::MAX as u128) * (usize::MAX as u128));
    assert_eq!(program_length(&big), 2 * (usize::MAX as u128));
}

#[test]
fn no_operators_gives_zero_difficulty() {
    let c = analyzer().analyze("alpha beta\ngamma").counts;
    assert_eq!(c.distinct_operators, 0);
    let d = difficulty(&c);
    assert_eq!(d.numerator, 0);
    assert!(d.denominator > 0);
    let value = (c.distinct_operators as f64 / 2.0) * (c.total_operands as f64 / c.distinct_operands as f64);
    assert_eq!(value, 0.0);
}

#[test]
fn no_operands_gives_non_finite_difficulty() {
    let c = analyzer().analyze("+ - ==\n").counts;
    assert_eq!(c.distinct_operands, 0);
    assert_eq!(c.total_operands, 0);
    let d = difficulty(&c);
    assert_eq!(d.denominator, 0);
    let value = (c.distinct_operators as f64 / 2.0) * (c.total_operands as f64 / c.distinct_operands as f64);
    assert!(!value.is_finite());
    let empty = analyzer().analyze("").counts;
    assert_eq!(difficulty(&empty).denominator, 0);
}

#[test]
fn html_fragment() {
    let a = analyzer().analyze("// shapes\nclass Shape\n/* area */\nint area(int w)\n");
    let html = generate_html("shape.h", a.line_count, &a.classes, &a.functions, "1.50", "2.25");
    assert_eq!(
        html,
        "<html><body><h1>shape.h</h1><h2>Line Count: 4</h2>\
         <h3>Halstead Difficulty: 1.50</h3><h3>Halstead Effort: 2.25</h3>\
         <h2>Class: Shape - Line:2</h2>\
         <h3>Function: area - Line:4</h3><p><strong>Arguments:</strong> int w</p>\
         <p><strong>Comments:</strong> area</p></body></html>"
    );
}

#[test]
fn html_nested_functions_take_class_comment() {
    let inner = Function { name: String::from("draw"), arguments: String::new(), line: 3, doc: Some(String::from("own")) };
    let class = Class { name: String::from("C"), functions: vec![inner], line: 1, doc: Some(String::from("cls")) };
    let html = generate_html("f", 3, &vec![class], &Vec::new(), "0.00", "0.00");
    assert_eq!(
        html,
        "<html><body><h1>f</h1><h2>Line Count: 3</h2>\
         <h3>Halstead Difficulty: 0.00</h3><h3>Halstead Effort: 0.00</h3>\
         <h2>Class: C - Line:1</h2><h3><strong>Function:</strong> draw</h3><p>Some(\"own\")</p>\
         <p><strong>Comments:</strong> cls</p></body></html>"
    );
}

#[test]
fn html_missing_doc_is_empty() {
    let f = Function { name: String::from("g"), arguments: String::from("x"), line: 12, doc: None };
    let html = generate_html("n", 12, &Vec::new(), &vec![f], "a", "b");
    assert!(html.contains("<h3>Function: g - Line:12</h3><p><strong>Arguments:</strong> x</p><p><strong>Comments:</strong> </p>"));
}

#[test]
fn same_input_same_report() {
    let text = "// doc\nclass K\nint f(int a) { return a * 2 + 1; }\n";
    let an = analyzer();
    let first = an.analyze(text);
    let second = an.analyze(text);
    let h1 = generate_html("k.cpp", first.line_count, &first.classes, &first.functions, "1.00", "2.00");
    let h2 = generate_html("k.cpp", second.line_count, &second.classes, &second.functions, "1.00", "2.00");
    assert_eq!(h1, h2);
    assert_eq!(first.counts, second.counts);
}

#[test]
fn pattern_compiles_valid_and_refuses_invalid() {
    assert!(Pattern::new("a+").is_some());
    assert!(Pattern::new("(unclosed").is_none());
}
