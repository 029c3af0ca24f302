//! Assembling the HTML fragment for one file.

use vstd::prelude::*;
use crate::scanner::{Class, ClassModel, Function, FunctionModel, opt_view};
use crate::text::{decimal, decimal_of};

verus! {

/// What `{:?}` writes for an optional string.
pub uninterp spec fn debug_text(o: Option<Seq<char>>) -> Seq<char>;

/// Relies on the `Debug` impl of `Option<String>`, through `format!`.
#[verifier::external_body]
fn debug_of(o: &Option<String>) -> (r: String)
    ensures
        r@ == debug_text(opt_view(*o)),
{
    format!("{:?}", o)
}

/// The text of an optional string, empty where there is none.
pub open spec fn or_empty(o: Option<Seq<char>>) -> Seq<char> {
    match o {
        Some(s) => s,
        None => Seq::empty(),
    }
}

/// The listing of the functions kept under a class whose documentation is `doc`.
pub open spec fn nested_html(fs: Seq<FunctionModel>, doc: Option<Seq<char>>) -> Seq<char>
    decreases fs.len(),
{
    if fs.len() == 0 {
        Seq::empty()
    } else {
        nested_html(fs.drop_last(), doc) + "<h3><strong>Function:</strong> "@ + fs.last().name
            + "</h3><p>"@ + debug_text(fs.last().doc) + "</p>"@
            + "<p><strong>Comments:</strong> "@ + or_empty(doc) + "</p>"@
    }
}

/// The section of one class.
pub open spec fn class_html(c: ClassModel) -> Seq<char> {
    "<h2>Class: "@ + c.name + " - Line:"@ + decimal_of(c.line) + "</h2>"@ + nested_html(
        c.functions,
        c.doc,
    )
}

/// The entry of one function in the flat listing.
pub open spec fn function_html(f: FunctionModel) -> Seq<char> {
    "<h3>Function: "@ + f.name + " - Line:"@ + decimal_of(f.line) + "</h3>"@
        + "<p><strong>Arguments:</strong> "@ + f.arguments + "</p>"@
        + "<p><strong>Comments:</strong> "@ + or_empty(f.doc) + "</p>"@
}

/// The sections of the classes, in order.
pub open spec fn classes_html(cs: Seq<ClassModel>) -> Seq<char>
    decreases cs.len(),
{
    if cs.len() == 0 {
        Seq::empty()
    } else {
        classes_html(cs.drop_last()) + class_html(cs.last())
    }
}

/// The flat listing of the functions, in order.
pub open spec fn functions_html(fs: Seq<FunctionModel>) -> Seq<char>
    decreases fs.len(),
{
    if fs.len() == 0 {
        Seq::empty()
    } else {
        functions_html(fs.drop_last()) + function_html(fs.last())
    }
}

/// The whole fragment for one file.
pub open spec fn html_of(
    file_name: Seq<char>,
    line_count: nat,
    classes: Seq<ClassModel>,
    functions: Seq<FunctionModel>,
    difficulty: Seq<char>,
    effort: Seq<char>,
) -> Seq<char> {
    "<html><body>"@ + "<h1>"@ + file_name + "</h1><h2>Line Count: "@ + decimal_of(line_count)
        + "</h2>"@ + "<h3>Halstead Difficulty: "@ + difficulty + "</h3>"@
        + "<h3>Halstead Effort: "@ + effort + "</h3>"@ + classes_html(classes) + functions_html(
        functions,
    ) + "</body></html>"@
}

/// Appends the text of `o`, nothing where it is `None`.
fn append_opt(out: &mut String, o: &Option<String>)
    ensures
        final(out)@ == old(out)@ + or_empty(opt_view(*o)),
{
    match o {
        Some(s) => out.append(s.as_str()),
        None => {
            assert(old(out)@ + Seq::<char>::empty() =~= old(out)@);
        },
    }
}

/// Appends the section of one class.
fn append_class(out: &mut String, c: &Class)
    ensures
        final(out)@ == old(out)@ + class_html(c@),
{
    let ghost start = out@;
    out.append("<h2>Class: ");
    out.append(c.name.as_str());
    out.append(" - Line:");
    let line = decimal(c.line);
    out.append(line.as_str());
    out.append("</h2>");
    let ghost head = out@;
    let ghost fs = c.functions@.map_values(|f: Function| f@);
    let mut i: usize = 0;
    while i < c.functions.len()
        invariant
            i <= c.functions@.len(),
            fs == c.functions@.map_values(|f: Function| f@),
            out@ == head + nested_html(fs.take(i as int), c@.doc),
        decreases c.functions@.len() - i,
    {
        let f = &c.functions[i];
        assert(fs.take(i + 1).drop_last() =~= fs.take(i as int));
        out.append("<h3><strong>Function:</strong> ");
        out.append(f.name.as_str());
        out.append("</h3><p>");
        let d = debug_of(&f.doc);
        out.append(d.as_str());
        out.append("</p>");
        out.append("<p><strong>Comments:</strong> ");
        append_opt(out, &c.doc);
        out.append("</p>");
        assert(out@ =~= head + nested_html(fs.take(i + 1), c@.doc));
        i = i + 1;
    }
    assert(fs.take(i as int) =~= fs);
    assert(out@ =~= start + class_html(c@));
}

/// Appends the flat-listing entry of one function.
fn append_function(out: &mut String, f: &Function)
    ensures
        final(out)@ == old(out)@ + function_html(f@),
{
    let ghost start = out@;
    out.append("<h3>Function: ");
    out.append(f.name.as_str());
    out.append(" - Line:");
    let line = decimal(f.line);
    out.append(line.as_str());
    out.append("</h3>");
    out.append("<p><strong>Arguments:</strong> ");
    out.append(f.arguments.as_str());
    out.append("</p>");
    out.append("<p><strong>Comments:</strong> ");
    append_opt(out, &f.doc);
    out.append("</p>");
    assert(out@ =~= start + function_html(f@));
}

/// The HTML fragment for one file: its name, line count and the two
/// measures as given, each class with the functions kept under it, then
/// every function with its arguments and documentation.
pub fn generate_html(
    file_name: &str,
    line_count: usize,
    classes: &Vec<Class>,
    functions: &Vec<Function>,
    difficulty: &str,
    effort: &str,
) -> (r: String)
    ensures
        r@ == html_of(
            file_name@,
            line_count as nat,
            classes@.map_values(|c: Class| c@),
            functions@.map_values(|f: Function| f@),
            difficulty@,
            effort@,
        ),
{
    let mut out = String::from_str("<html><body>");
    out.append("<h1>");
    out.append(file_name);
    out.append("</h1><h2>Line Count: ");
    let count = decimal(line_count);
    out.append(count.as_str());
    out.append("</h2>");
    out.append("<h3>Halstead Difficulty: ");
    out.append(difficulty);
    out.append("</h3>");
    out.append("<h3>Halstead Effort: ");
    out.append(effort);
    out.append("</h3>");
    let ghost head = out@;
    let ghost cs = classes@.map_values(|c: Class| c@);
    let mut i: usize = 0;
    while i < classes.len()
        invariant
            i <= classes@.len(),
            cs == classes@.map_values(|c: Class| c@),
            out@ == head + classes_html(cs.take(i as int)),
        decreases classes@.len() - i,
    {
        assert(cs.take(i + 1).drop_last() =~= cs.take(i as int));
        append_class(&mut out, &classes[i]);
        assert(out@ =~= head + classes_html(cs.take(i + 1)));
        i = i + 1;
    }
    assert(cs.take(i as int) =~= cs);
    let ghost mid = out@;
    let ghost fs = functions@.map_values(|f: Function| f@);
    let mut j: usize = 0;
    while j < functions.len()
        invariant
            j <= functions@.len(),
            fs == functions@.map_values(|f: Function| f@),
            out@ == mid + functions_html(fs.take(j as int)),
        decreases functions@.len() - j,
    {
        assert(fs.take(j + 1).drop_last() =~= fs.take(j as int));
        append_function(&mut out, &functions[j]);
        assert(out@ =~= mid + functions_html(fs.take(j + 1)));
        j = j + 1;
    }
    assert(fs.take(j as int) =~= fs);
    out.append("</body></html>");
    assert(out@ =~= html_of(file_name@, line_count as nat, cs, fs, difficulty@, effort@));
    out
}

} // verus!
