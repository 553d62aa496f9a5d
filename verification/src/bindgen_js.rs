//! The names that a generated bindings script exports, read off its lines.

use crate::text::after_last;
use crate::text::chars_of;
use crate::text::contains_chars;
use crate::text::contains_text;
use crate::text::find_after_last;
use crate::text::find_char;
use crate::text::find_word_start;
use crate::text::first_index_of;
use crate::text::join_lines;
use crate::text::joined;
use crate::text::lines_of;
use crate::text::skip_prefixes;
use crate::text::split_lines;
use crate::text::strip_prefixes;
use crate::text::starts_with_at;
use crate::text::texts;
use crate::text::trim;
use crate::text::trim_bounds;
use crate::text::word_start;
use vstd::prelude::*;

verus! {

/// Why the exports of a script could not be read.
#[derive(Debug, PartialEq, Eq)]
pub enum ExportError {
    /// A function export whose line holds no opening parenthesis.
    MissingParenthesis,
    /// A constant export whose line holds no assignment.
    MissingAssignment,
    /// An export line that is neither a function nor a constant.
    Unsupported(String),
}

/// An export error as contracts see it.
pub enum ExportErrorView {
    MissingParenthesis,
    MissingAssignment,
    Unsupported(Seq<char>),
}

impl View for ExportError {
    type V = ExportErrorView;

    open spec fn view(&self) -> ExportErrorView {
        match self {
            ExportError::MissingParenthesis => ExportErrorView::MissingParenthesis,
            ExportError::MissingAssignment => ExportErrorView::MissingAssignment,
            ExportError::Unsupported(line) => ExportErrorView::Unsupported(line@),
        }
    }
}

/// The message of an export error.
pub open spec fn export_error_message(e: ExportErrorView) -> Seq<char> {
    match e {
        ExportErrorView::MissingParenthesis => "Function export without parenthesis in the same line"@,
        ExportErrorView::MissingAssignment => "Exported const without assignment operator"@,
        ExportErrorView::Unsupported(line) => "Unsupported export line: "@ + line,
    }
}

impl ExportError {
    /// The message shown to the user.
    pub fn message(&self) -> (text: String)
        ensures
            text@ == export_error_message(self@),
    {
        match self {
            ExportError::MissingParenthesis => String::from_str(
                "Function export without parenthesis in the same line",
            ),
            ExportError::MissingAssignment => String::from_str(
                "Exported const without assignment operator",
            ),
            ExportError::Unsupported(line) => String::from_str("Unsupported export line: ").concat(
                line.as_str(),
            ),
        }
    }
}

/// Whether a line exports something: trimmed, it starts with `export`.
pub open spec fn is_export_line(line: Seq<char>) -> bool {
    "export"@.is_prefix_of(trim(line))
}

/// Whether a line exports a function, plain or async.
pub open spec fn is_function_export(line: Seq<char>) -> bool {
    "export async function"@.is_prefix_of(trim(line)) || "export function"@.is_prefix_of(
        trim(line),
    )
}

/// The name on a function export line: what stands between the start of
/// the word that holds the line's first opening parenthesis and that
/// parenthesis.
pub open spec fn function_name(line: Seq<char>) -> Result<Seq<char>, ExportErrorView> {
    let paren = first_index_of(line, '(');
    if paren == line.len() {
        Err(ExportErrorView::MissingParenthesis)
    } else {
        Ok(line.subrange(word_start(line, paren), paren))
    }
}

/// The name on a constant export line: of what stands before the line's
/// first `=`, trimmed, the part behind the last blank, trimmed again.
pub open spec fn const_name(line: Seq<char>) -> Result<Seq<char>, ExportErrorView> {
    let equals = first_index_of(line, '=');
    if equals == line.len() {
        Err(ExportErrorView::MissingAssignment)
    } else {
        let before = trim(line.subrange(0, equals));
        Ok(trim(before.subrange(after_last(before, ' '), before.len() as int)))
    }
}

/// The name that an export line exports.
pub open spec fn exported_name(line: Seq<char>) -> Result<Seq<char>, ExportErrorView> {
    if is_function_export(line) {
        function_name(line)
    } else if contains_text(line, "const"@) {
        const_name(line)
    } else {
        Err(ExportErrorView::Unsupported(line))
    }
}

/// The names that the export lines among `lines` export, in the order of the
/// lines, or the error of the first export line that cannot be read.
pub open spec fn exported_names(lines: Seq<Seq<char>>) -> Result<Seq<Seq<char>>, ExportErrorView>
    decreases lines.len(),
{
    if lines.len() == 0 {
        Ok(Seq::empty())
    } else {
        match exported_names(lines.drop_last()) {
            Err(e) => Err(e),
            Ok(names) => if is_export_line(lines.last()) {
                match exported_name(lines.last()) {
                    Ok(name) => Ok(names.push(name)),
                    Err(e) => Err(e),
                }
            } else {
                Ok(names)
            },
        }
    }
}

/// A list of names, or an error, as contracts see it.
pub open spec fn names_view(r: Result<Vec<&str>, ExportError>) -> Result<
    Seq<Seq<char>>,
    ExportErrorView,
> {
    match r {
        Ok(names) => Ok(texts(names@)),
        Err(e) => Err(e@),
    }
}

/// Whether a line exports something.
pub fn exports_something(line: &str) -> (exports: bool)
    ensures
        exports == is_export_line(line@),
{
    let chars = chars_of(line);
    let keyword = chars_of("export");
    let (start, end) = trim_bounds(&chars, 0, chars.len());
    proof {
        assert(chars@.subrange(0, chars.len() as int) =~= line@);
    }
    starts_with_at(&chars, start, end, &keyword)
}

/// The name that an export line exports.
pub fn name_of_export<'a>(line: &'a str) -> (name: Result<&'a str, ExportError>)
    ensures
        match name {
            Ok(n) => exported_name(line@) == Ok::<Seq<char>, ExportErrorView>(n@),
            Err(e) => exported_name(line@) == Err::<Seq<char>, ExportErrorView>(e@),
        },
{
    let chars = chars_of(line);
    let n = chars.len();
    let (start, end) = trim_bounds(&chars, 0, n);
    proof {
        assert(chars@.subrange(0, n as int) =~= line@);
    }
    let async_function = chars_of("export async function");
    let function = chars_of("export function");
    if starts_with_at(&chars, start, end, &async_function) || starts_with_at(
        &chars,
        start,
        end,
        &function,
    ) {
        let paren = find_char(&chars, 0, n, '(');
        if paren == n {
            return Err(ExportError::MissingParenthesis);
        }
        let word = find_word_start(&chars, paren);
        return Ok(line.substring_char(word, paren));
    }
    let keyword = chars_of("const");
    if contains_chars(&chars, &keyword) {
        let equals = find_char(&chars, 0, n, '=');
        if equals == n {
            return Err(ExportError::MissingAssignment);
        }
        let (a, b) = trim_bounds(&chars, 0, equals);
        let last = find_after_last(&chars, a, b, ' ');
        let (from, to) = trim_bounds(&chars, last, b);
        proof {
            let before = trim(line@.subrange(0, equals as int));
            assert(before == chars@.subrange(a as int, b as int));
            assert(before.subrange(after_last(before, ' '), before.len() as int) =~= chars@.subrange(
                last as int,
                b as int,
            ));
        }
        return Ok(line.substring_char(from, to));
    }
    Err(ExportError::Unsupported(String::from_str(line)))
}

/// The names that a bindings script exports: for each line that, trimmed,
/// starts with `export`, the name of the function or of the constant that it
/// exports, in the order of the lines. The first export line that is
/// neither, or that lacks its parenthesis or its assignment, is the error.
pub fn collect_exported_names<'a>(lines: &[&'a str]) -> (names: Result<Vec<&'a str>, ExportError>)
    ensures
        names_view(names) == exported_names(texts(lines@)),
{
    let mut names: Vec<&'a str> = Vec::new();
    let mut i: usize = 0;
    proof {
        assert(texts(names@) =~= Seq::<Seq<char>>::empty());
    }
    while i < lines.len()
        invariant
            i <= lines.len(),
            exported_names(texts(lines@).take(i as int)) == Ok::<Seq<Seq<char>>, ExportErrorView>(
                texts(names@),
            ),
        decreases lines.len() - i,
    {
        let line = lines[i];
        proof {
            let done = texts(lines@).take(i as int);
            let next = texts(lines@).take(i + 1);
            assert(next.drop_last() =~= done);
            assert(next.last() == line@);
        }
        if exports_something(line) {
            let ghost before = names@;
            match name_of_export(line) {
                Ok(name) => {
                    names.push(name);
                    proof {
                        assert(texts(names@) =~= texts(before).push(name@));
                    }
                },
                Err(e) => {
                    proof {
                        lemma_error_stays(texts(lines@), i + 1);
                    }
                    return Err(e);
                },
            }
        }
        i += 1;
    }
    proof {
        assert(texts(lines@).take(lines.len() as int) =~= texts(lines@));
    }
    Ok(names)
}

/// Once the lines up to `upto` give an error, all the lines give that
/// error.
pub proof fn lemma_error_stays(lines: Seq<Seq<char>>, upto: int)
    requires
        0 <= upto <= lines.len(),
        exported_names(lines.take(upto)) is Err,
    ensures
        exported_names(lines) == exported_names(lines.take(upto)),
    decreases lines.len() - upto,
{
    if upto == lines.len() {
        assert(lines.take(upto) =~= lines);
    } else {
        assert(lines.take(upto + 1).drop_last() =~= lines.take(upto));
        lemma_error_stays(lines, upto + 1);
    }
}

/// A line as the rewritten script holds it: trimmed, and without the
/// `export` keywords that it starts with.
pub open spec fn stripped_line(line: Seq<char>) -> Seq<char> {
    strip_prefixes(trim(line), "export"@)
}

/// Whether a line of the rewritten script is an import: trimmed, it starts
/// with `import`.
pub open spec fn is_import_line(line: Seq<char>) -> bool {
    "import"@.is_prefix_of(trim(line))
}

/// The number of import lines that a script starts with.
pub open spec fn leading_imports(lines: Seq<Seq<char>>) -> int
    decreases lines.len(),
{
    if lines.len() == 0 || !is_import_line(lines[0]) {
        0
    } else {
        1 + leading_imports(lines.drop_first())
    }
}

/// Where the wrapper's opening lines go: before the first line that is no
/// import, or at the top where every line is one.
pub open spec fn wrapper_position(lines: Seq<Seq<char>>) -> int {
    if leading_imports(lines) >= lines.len() {
        0
    } else {
        leading_imports(lines)
    }
}

/// The opening lines of the wrapper: the symbol under which the raw module
/// is handed out, and the head of the default export that wraps the rest.
pub open spec fn wrapper_head() -> Seq<char> {
    "\n        export const RAW_WASM = Symbol();\n        export default function() {"@
}

/// The line that opens the object returned by the wrapper.
pub open spec fn wrapper_return() -> Seq<char> {
    "return { [RAW_WASM]: wasm, "@
}

/// The line that closes the returned object and the wrapper.
pub open spec fn wrapper_tail() -> Seq<char> {
    "};}"@
}

/// The lines that list the exported names in the returned object: each
/// name followed by a line that holds a comma.
pub open spec fn name_entries(names: Seq<Seq<char>>) -> Seq<Seq<char>>
    decreases names.len(),
{
    if names.len() == 0 {
        Seq::empty()
    } else {
        name_entries(names.drop_last()).push(names.last()).push(","@)
    }
}

/// The lines of the rewritten script: the stripped lines of the original
/// with the wrapper's head put before the first that is no import, then the
/// returned object with the exported names, then the wrapper's tail.
pub open spec fn rewritten_lines(lines: Seq<Seq<char>>, names: Seq<Seq<char>>) -> Seq<Seq<char>> {
    let body = Seq::new(lines.len(), |i: int| stripped_line(lines[i]));
    body.insert(wrapper_position(body), wrapper_head()) + seq![wrapper_return()] + name_entries(
        names,
    ) + seq![wrapper_tail()]
}

/// The rewritten script: its exports gathered behind one default export
/// that returns them together with the raw module.
pub open spec fn rewritten(source: Seq<char>) -> Result<Seq<char>, ExportErrorView> {
    match exported_names(lines_of(source)) {
        Err(e) => Err(e),
        Ok(names) => Ok(joined(rewritten_lines(lines_of(source), names), "\n"@)),
    }
}

/// A line trimmed and without the `export` keywords that it starts with.
pub fn strip_line<'a>(line: &'a str) -> (stripped: &'a str)
    ensures
        stripped@ == stripped_line(line@),
{
    let chars = chars_of(line);
    let keyword = chars_of("export");
    let (start, end) = trim_bounds(&chars, 0, chars.len());
    proof {
        assert(chars@.subrange(0, chars.len() as int) =~= line@);
    }
    let at = skip_prefixes(&chars, start, end, &keyword);
    line.substring_char(at, end)
}

/// Whether a line, trimmed, starts with `import`.
pub fn imports_something(line: &str) -> (imports: bool)
    ensures
        imports == is_import_line(line@),
{
    let chars = chars_of(line);
    let keyword = chars_of("import");
    let (start, end) = trim_bounds(&chars, 0, chars.len());
    proof {
        assert(chars@.subrange(0, chars.len() as int) =~= line@);
    }
    starts_with_at(&chars, start, end, &keyword)
}

/// Where the wrapper's opening lines go among the given lines.
pub fn find_wrapper_position(lines: &Vec<&str>) -> (position: usize)
    ensures
        position == wrapper_position(texts(lines@)),
        position <= lines.len(),
{
    let mut i: usize = 0;
    proof {
        assert(texts(lines@).skip(0) =~= texts(lines@));
    }
    while i < lines.len() && imports_something(lines[i])
        invariant
            i <= lines.len(),
            leading_imports(texts(lines@)) == i + leading_imports(texts(lines@).skip(i as int)),
        decreases lines.len() - i,
    {
        proof {
            let rest = texts(lines@).skip(i as int);
            assert(rest[0] == lines@[i as int]@);
            assert(rest.drop_first() =~= texts(lines@).skip(i + 1));
        }
        i += 1;
    }
    proof {
        let rest = texts(lines@).skip(i as int);
        if i < lines.len() {
            assert(rest[0] == lines@[i as int]@);
        }
    }
    if i >= lines.len() {
        0
    } else {
        i
    }
}

/// Rewrites a generated bindings script so that everything it exported is
/// reached through one default export. Each line is trimmed and loses its
/// leading `export`; the head of the wrapper goes before the first line
/// that is no import; the names that the script exported are returned from
/// the wrapper together with the raw module. A script whose exports cannot
/// be read is refused with the error of the first such line.
pub fn rewrite_bindings(source: &str) -> (script: Result<String, ExportError>)
    ensures
        match script {
            Ok(text) => rewritten(source@) == Ok::<Seq<char>, ExportErrorView>(text@),
            Err(e) => rewritten(source@) == Err::<Seq<char>, ExportErrorView>(e@),
        },
{
    let lines = split_lines(source);
    let names = match collect_exported_names(lines.as_slice()) {
        Ok(names) => names,
        Err(e) => {
            return Err(e);
        },
    };
    let mut out: Vec<&str> = Vec::new();
    let mut i: usize = 0;
    let ghost body = Seq::new(lines@.len(), |k: int| stripped_line(lines@[k]@));
    proof {
        assert(body =~= Seq::new(
            lines_of(source@).len(),
            |k: int| stripped_line(lines_of(source@)[k]),
        ));
    }
    while i < lines.len()
        invariant
            i <= lines.len(),
            body == Seq::new(lines@.len(), |k: int| stripped_line(lines@[k]@)),
            texts(out@) == body.take(i as int),
        decreases lines.len() - i,
    {
        let ghost before = out@;
        out.push(strip_line(lines[i]));
        proof {
            assert(texts(out@) =~= texts(before).push(body[i as int]));
            assert(body.take(i + 1) =~= body.take(i as int).push(body[i as int]));
        }
        i += 1;
    }
    proof {
        assert(body.take(lines.len() as int) =~= body);
    }
    let position = find_wrapper_position(&out);
    out.insert(
        position,
        "\n        export const RAW_WASM = Symbol();\n        export default function() {",
    );
    proof {
        assert(texts(out@) =~= body.insert(position as int, wrapper_head()));
    }
    out.push("return { [RAW_WASM]: wasm, ");
    let ghost opened = texts(out@);
    proof {
        assert(opened =~= body.insert(position as int, wrapper_head()) + seq![wrapper_return()]);
    }
    let mut j: usize = 0;
    while j < names.len()
        invariant
            j <= names.len(),
            texts(out@) == opened + name_entries(texts(names@).take(j as int)),
        decreases names.len() - j,
    {
        let ghost before = out@;
        out.push(names[j]);
        out.push(",");
        proof {
            let taken = texts(names@).take(j + 1);
            assert(taken.drop_last() =~= texts(names@).take(j as int));
            assert(taken.last() == names@[j as int]@);
            assert(texts(out@) =~= texts(before).push(names@[j as int]@).push(","@));
            assert(texts(out@) =~= opened + name_entries(taken));
        }
        j += 1;
    }
    proof {
        assert(texts(names@).take(names.len() as int) =~= texts(names@));
    }
    let ghost listed = texts(out@);
    out.push("};}");
    proof {
        assert(texts(out@) =~= listed + seq![wrapper_tail()]);
        assert(texts(out@) == rewritten_lines(lines_of(source@), texts(names@)));
    }
    Ok(join_lines(&out, "\n"))
}

} // verus!
