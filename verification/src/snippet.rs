//! The caret-annotated excerpt: header, code, caret line and detail line.

use vstd::prelude::*;
use vstd::string::*;
use crate::position::{
    context_start_of, excerpt_end_of, lemma_excerpt_bounds, lemma_scan, lemma_single_line,
    lemma_start_of_text, line_start_of, resolve_chars, scan, PositionError, ResolvedPosition,
};
use crate::text::{
    chars_of, decimal, indent, indented, lemma_indented_twice, push_char, push_decimal,
    push_repeated, push_without_tabs, repeated, tabs_to_spaces,
};

verus! {

/// Columns by which the code of an excerpt is set in from the gutter.
pub const CODE_INDENT: usize = 2;

/// What a snippet is rendered from: one finding's code block and message.
#[derive(Clone, Debug)]
pub struct ErrorSnippetInput {
    /// Source text of the analysed unit.
    pub block_code: String,
    /// Name of the unit, as shown in the header.
    pub function_name: String,
    /// What is wrong.
    pub error_message: String,
    /// Short classification code.
    pub error_code: String,
    /// Character offset of the problem in `block_code`, counted from 0.
    pub position: i32,
}

/// Whether a snippet carries ANSI colour codes.
#[derive(Clone, Copy, Debug, PartialEq, Eq, Structural)]
pub enum Colour {
    /// Bold red header and code, red gutters and message.
    Ansi,
    /// The same text without any escape sequence.
    Plain,
}

/// The escape sequence `code` where colours are on, nothing where they are
/// off.
pub open spec fn paint(colour: Colour, code: Seq<char>) -> Seq<char> {
    if colour == Colour::Ansi {
        code
    } else {
        Seq::empty()
    }
}

/// The gutter marker `bar` in red.
pub open spec fn gutter(colour: Colour, bar: Seq<char>) -> Seq<char> {
    paint(colour, "\x1b[31m"@) + bar + paint(colour, "\x1b[0m"@)
}

/// The bold header that names line, column and unit.
pub open spec fn header_line(colour: Colour, line_no: nat, column: nat, name: Seq<char>) -> Seq<
    char,
> {
    paint(colour, "\x1b[1;31m"@) + "🛑 Error occurred at line "@ + decimal(line_no) + ", column "@
        + decimal(column) + " of \""@ + name + "\":"@ + paint(colour, "\x1b[0m"@)
}

/// The source shown for offset `p`: from the start of the context to the end
/// of the offending line, tabs as spaces.
pub open spec fn excerpt_of(s: Seq<char>, p: int) -> Seq<char> {
    tabs_to_spaces(s.subrange(context_start_of(s, p), excerpt_end_of(s, p)))
}

/// The excerpt behind its gutter: a marker opens the first line, and every
/// line break is followed by a marker and the code indent.
pub open spec fn excerpt_block(colour: Colour, excerpt: Seq<char>) -> Seq<char> {
    indented(indented(gutter(colour, "|  "@) + excerpt, "  "@), gutter(colour, "| "@))
}

/// Number of dashes before the caret for a position `within_line` characters
/// into its line; never negative.
pub open spec fn dash_count(within_line: int) -> nat {
    if within_line - 1 + CODE_INDENT - 1 < 0 {
        0
    } else {
        (within_line - 1 + CODE_INDENT - 1) as nat
    }
}

/// The line that points at the offending column.
pub open spec fn caret_line(colour: Colour, within_line: int) -> Seq<char> {
    paint(colour, "\x1b[31m"@) + "| "@ + repeated('-', dash_count(within_line)) + "^"@ + paint(
        colour,
        "\x1b[0m"@,
    )
}

/// The closing line with code and message.
pub open spec fn detail_line(colour: Colour, error_code: Seq<char>, message: Seq<char>) -> Seq<
    char,
> {
    gutter(colour, "| "@) + paint(colour, "\x1b[1;31m"@) + error_code + paint(colour, "\x1b[0m"@)
        + paint(colour, "\x1b[31m"@) + ": "@ + message + paint(colour, "\x1b[0m"@)
}

/// The whole snippet for offset `p` of `s`: header, excerpt, caret line and
/// detail line, joined by line breaks.
pub open spec fn snippet_text(
    colour: Colour,
    s: Seq<char>,
    name: Seq<char>,
    message: Seq<char>,
    error_code: Seq<char>,
    p: int,
) -> Seq<char> {
    header_line(colour, scan(s, p).0 as nat, scan(s, p).1 as nat, name).push('\n')
        + excerpt_block(colour, excerpt_of(s, p)).push('\n') + caret_line(
        colour,
        p - line_start_of(s, p),
    ).push('\n') + detail_line(colour, error_code, message)
}

/// Appends the escape sequence `code` where colours are on.
fn push_paint(out: &mut String, colour: Colour, code: &str)
    ensures
        final(out)@ == old(out)@ + paint(colour, code@),
{
    match colour {
        Colour::Ansi => {
            out.append(code);
        },
        Colour::Plain => {
            assert(out@ =~= old(out)@ + paint(colour, code@));
        },
    }
}

/// Appends the gutter marker `bar`.
fn push_gutter(out: &mut String, colour: Colour, bar: &str)
    ensures
        final(out)@ == old(out)@ + gutter(colour, bar@),
{
    push_paint(out, colour, "\x1b[31m");
    out.append(bar);
    push_paint(out, colour, "\x1b[0m");
    assert(out@ =~= old(out)@ + gutter(colour, bar@));
}

/// Number of dashes before the caret for a position `within_line` characters
/// into its line.
pub fn caret_dashes(within_line: usize) -> (count: usize)
    ensures
        count == dash_count(within_line as int),
{
    if within_line >= 1 {
        within_line - 1 + (CODE_INDENT - 1)
    } else if CODE_INDENT >= 2 {
        CODE_INDENT - 2
    } else {
        0
    }
}

/// Renders the snippet for a position that has been resolved in `chars`.
pub fn render_resolved(
    colour: Colour,
    chars: &Vec<char>,
    block_name: &str,
    message: &str,
    error_code: &str,
    position: usize,
    resolved: &ResolvedPosition,
) -> (out: String)
    requires
        position <= chars@.len(),
        resolved.locates(chars@, position as int),
    ensures
        out@ == snippet_text(colour, chars@, block_name@, message@, error_code@, position as int),
{
    proof {
        lemma_excerpt_bounds(chars@, position as int);
        lemma_scan(chars@, position as int);
    }
    let mut out = String::new();
    push_paint(&mut out, colour, "\x1b[1;31m");
    out.append("🛑 Error occurred at line ");
    push_decimal(&mut out, resolved.line_no);
    out.append(", column ");
    push_decimal(&mut out, resolved.column);
    out.append(" of \"");
    out.append(block_name);
    out.append("\":");
    push_paint(&mut out, colour, "\x1b[0m");
    push_char(&mut out, '\n');
    assert(out@ =~= header_line(
        colour,
        scan(chars@, position as int).0 as nat,
        scan(chars@, position as int).1 as nat,
        block_name@,
    ).push('\n'));

    let mut code = String::new();
    push_gutter(&mut code, colour, "|  ");
    push_without_tabs(&mut code, chars, resolved.context_start, resolved.excerpt_end(chars.len()));
    assert(code@ =~= gutter(colour, "|  "@) + excerpt_of(chars@, position as int));
    let mut margin = String::new();
    push_gutter(&mut margin, colour, "| ");
    assert(margin@ =~= gutter(colour, "| "@));
    let inner = indent(code.as_str(), "  ");
    let block = indent(inner.as_str(), margin.as_str());
    out.append(block.as_str());
    push_char(&mut out, '\n');

    push_paint(&mut out, colour, "\x1b[31m");
    out.append("| ");
    push_repeated(&mut out, '-', caret_dashes(position - resolved.line_start));
    out.append("^");
    push_paint(&mut out, colour, "\x1b[0m");
    push_char(&mut out, '\n');

    push_gutter(&mut out, colour, "| ");
    push_paint(&mut out, colour, "\x1b[1;31m");
    out.append(error_code);
    push_paint(&mut out, colour, "\x1b[0m");
    push_paint(&mut out, colour, "\x1b[31m");
    out.append(": ");
    out.append(message);
    push_paint(&mut out, colour, "\x1b[0m");
    assert(out@ =~= snippet_text(
        colour,
        chars@,
        block_name@,
        message@,
        error_code@,
        position as int,
    ));
    out
}

/// Renders the snippet for the problem at character offset `position` of
/// `block_text`, with or without colours. An offset outside the text is
/// refused and nothing is rendered.
pub fn render_with(
    colour: Colour,
    block_text: &str,
    block_name: &str,
    message: &str,
    error_code: &str,
    position: i32,
) -> (rendered: Result<String, PositionError>)
    ensures
        rendered is Ok <==> 0 <= position <= block_text@.len(),
        rendered is Ok ==> rendered->Ok_0@ == snippet_text(
            colour,
            block_text@,
            block_name@,
            message@,
            error_code@,
            position as int,
        ),
        rendered is Err ==> rendered->Err_0 == PositionError::OutOfBounds,
{
    let chars = chars_of(block_text);
    match resolve_chars(&chars, position) {
        Ok(resolved) => Ok(
            render_resolved(
                colour,
                &chars,
                block_name,
                message,
                error_code,
                position as usize,
                &resolved,
            ),
        ),
        Err(e) => Err(e),
    }
}

/// Renders the coloured snippet for the problem at character offset
/// `position` of `block_text`. An offset outside the text is refused and
/// nothing is rendered.
pub fn render(
    block_text: &str,
    block_name: &str,
    message: &str,
    error_code: &str,
    position: i32,
) -> (rendered: Result<String, PositionError>)
    ensures
        rendered is Ok <==> 0 <= position <= block_text@.len(),
        rendered is Ok ==> rendered->Ok_0@ == snippet_text(
            Colour::Ansi,
            block_text@,
            block_name@,
            message@,
            error_code@,
            position as int,
        ),
        rendered is Err ==> rendered->Err_0 == PositionError::OutOfBounds,
{
    render_with(Colour::Ansi, block_text, block_name, message, error_code, position)
}

/// Renders the coloured snippet of one finding: header, excerpt, caret and
/// detail line. A position outside the code block is refused.
pub fn over_write_error_message_with_snippet(error: ErrorSnippetInput) -> (rendered: Result<
    String,
    PositionError,
>)
    ensures
        rendered is Ok <==> 0 <= error.position <= error.block_code@.len(),
        rendered is Ok ==> rendered->Ok_0@ == snippet_text(
            Colour::Ansi,
            error.block_code@,
            error.function_name@,
            error.error_message@,
            error.error_code@,
            error.position as int,
        ),
        rendered is Err ==> rendered->Err_0 == PositionError::OutOfBounds,
{
    render(
        error.block_code.as_str(),
        error.function_name.as_str(),
        error.error_message.as_str(),
        error.error_code.as_str(),
        error.position,
    )
}

/// The dash count is the distance into the line: nothing is drawn before the
/// caret at the start of a line, and the count never falls below zero.
pub proof fn lemma_dash_count(within_line: int)
    ensures
        within_line <= 0 ==> dash_count(within_line) == 0,
        within_line >= 0 ==> dash_count(within_line) == within_line,
{
}

/// At offset 0 the header reports line 1 and column 0 and the caret stands
/// directly behind the gutter.
pub proof fn lemma_snippet_at_start(
    colour: Colour,
    s: Seq<char>,
    name: Seq<char>,
    message: Seq<char>,
    error_code: Seq<char>,
)
    ensures
        scan(s, 0) == (1int, 0int),
        dash_count(0 - line_start_of(s, 0)) == 0,
        snippet_text(colour, s, name, message, error_code, 0) == header_line(
            colour,
            1,
            0,
            name,
        ).push('\n') + excerpt_block(colour, excerpt_of(s, 0)).push('\n') + caret_line(
            colour,
            0,
        ).push('\n') + detail_line(colour, error_code, message),
        caret_line(colour, 0) == paint(colour, "\x1b[31m"@) + "| "@ + "^"@ + paint(
            colour,
            "\x1b[0m"@,
        ),
{
    lemma_start_of_text(s);
    assert(repeated('-', 0) =~= Seq::<char>::empty());
    assert(paint(colour, "\x1b[31m"@) + "| "@ + repeated('-', 0) =~= paint(colour, "\x1b[31m"@)
        + "| "@);
}

/// In the excerpt block every line break is followed by the gutter marker
/// and the code indent.
pub proof fn lemma_excerpt_block(colour: Colour, excerpt: Seq<char>)
    ensures
        excerpt_block(colour, excerpt) == indented(
            gutter(colour, "|  "@) + excerpt,
            gutter(colour, "| "@) + "  "@,
        ),
{
    reveal_strlit("  ");
    lemma_indented_twice(gutter(colour, "|  "@) + excerpt, "  "@, gutter(colour, "| "@));
}

/// Without colours a snippet holds no escape sequence of its own: header,
/// gutter, caret and detail line are the bare text.
pub proof fn lemma_plain_has_no_paint(code: Seq<char>, bar: Seq<char>)
    ensures
        paint(Colour::Plain, code) == Seq::<char>::empty(),
        paint(Colour::Ansi, code) == code,
        gutter(Colour::Plain, bar) == bar,
{
    assert(gutter(Colour::Plain, bar) =~= bar);
}

/// For a text without line breaks the excerpt is the whole text, tabs as
/// spaces, whatever the position.
pub proof fn lemma_single_line_excerpt(s: Seq<char>, p: int)
    requires
        0 <= p <= s.len(),
        forall|i: int| 0 <= i < s.len() ==> s[i] != '\n',
    ensures
        context_start_of(s, p) == 0,
        excerpt_end_of(s, p) == s.len(),
        excerpt_of(s, p) == tabs_to_spaces(s),
{
    lemma_single_line(s, p);
    assert(s.subrange(0, s.len() as int) =~= s);
}

/// The excerpt is as long as the stretch of source it shows, and holds no
/// tab.
pub proof fn lemma_excerpt_length(s: Seq<char>, p: int)
    requires
        0 <= p <= s.len(),
    ensures
        excerpt_of(s, p).len() == excerpt_end_of(s, p) - context_start_of(s, p),
        forall|i: int| 0 <= i < excerpt_of(s, p).len() ==> #[trigger] excerpt_of(s, p)[i] != '\t',
{
    lemma_excerpt_bounds(s, p);
}

/// Rendering is a function of the finding alone: two renderings of findings
/// with the same contents are the same text.
pub proof fn lemma_render_repeatable(
    colour: Colour,
    first: ErrorSnippetInput,
    second: ErrorSnippetInput,
    first_out: String,
    second_out: String,
)
    requires
        first.block_code@ == second.block_code@,
        first.function_name@ == second.function_name@,
        first.error_message@ == second.error_message@,
        first.error_code@ == second.error_code@,
        first.position == second.position,
        first_out@ == snippet_text(
            colour,
            first.block_code@,
            first.function_name@,
            first.error_message@,
            first.error_code@,
            first.position as int,
        ),
        second_out@ == snippet_text(
            colour,
            second.block_code@,
            second.function_name@,
            second.error_message@,
            second.error_code@,
            second.position as int,
        ),
    ensures
        first_out@ == second_out@,
{
}

} // verus!
