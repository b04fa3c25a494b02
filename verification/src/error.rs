//! The diagnostic model: one reported defect with its rule classification,
//! message, note and source span, and helpers that render colored output.

use vstd::prelude::*;

use crate::builder::Builder;
use crate::rules::Rule;
use crate::text::{bytes_text, bytes_to_string, dec_string, push_str, spec_dec};

verus! {

/// A suggested one-line textual fix: a snippet and the column to insert it
/// at.
#[derive(Debug, Clone)]
pub struct ImprovedLine {
    pub snippet: &'static str,
    pub start: usize,
}

/// One reported defect. `line` is zero-based and indexes into the source
/// buffer the diagnostic was derived from; `start` and `end` are columns on
/// that line. A span with `end <= start` is rendered as a point defect of
/// width one.
#[derive(Debug, Clone)]
pub struct Error {
    pub file: String,
    pub line: usize,
    pub rule: Rule,
    pub note: String,
    pub msg: String,
    pub start: usize,
    pub end: usize,
    pub improved_line: Option<ImprovedLine>,
    pub doc_url: Option<&'static str>,
}

/// Terminal color escape codes used by the renderer.
#[derive(Debug, Clone, Copy)]
pub enum Color {
    Red,
    Reset,
    Blue,
    Cyan,
    Green,
    Yellow,
}

impl Color {
    /// The escape sequence of the color.
    pub open spec fn spec_as_str(self) -> Seq<char> {
        match self {
            Color::Reset => "\u{1b}[0m"@,
            Color::Red => "\u{1b}[31m"@,
            Color::Blue => "\u{1b}[94m"@,
            Color::Green => "\u{1b}[92m"@,
            Color::Yellow => "\u{1b}[93m"@,
            Color::Cyan => "\u{1b}[96m"@,
        }
    }

    /// The escape sequence of the color.
    pub fn as_str(&self) -> (r: &'static str)
        ensures
            r@ == self.spec_as_str(),
    {
        match self {
            Color::Reset => "\u{1b}[0m",
            Color::Red => "\u{1b}[31m",
            Color::Blue => "\u{1b}[94m",
            Color::Green => "\u{1b}[92m",
            Color::Yellow => "\u{1b}[93m",
            Color::Cyan => "\u{1b}[96m",
        }
    }
}

/// The text `s` wrapped in the color's escape codes.
pub open spec fn spec_colored(s: Seq<char>, c: Color) -> Seq<char> {
    c.spec_as_str() + s + Color::Reset.spec_as_str()
}

/// Writes `s` wrapped in the color's escape codes.
pub fn print_str_colored(b: &mut Builder, s: &str, c: Color)
    ensures
        final(b)@ == old(b)@ + spec_colored(s@, c),
{
    b.write_str(c.as_str());
    b.write_str(s);
    b.write_str(Color::Reset.as_str());
}

/// Writes a colored `warn: ` line holding `s`.
pub fn warn(b: &mut Builder, s: &str)
    ensures
        final(b)@ == old(b)@ + spec_colored("warn"@, Color::Yellow) + ": "@ + s@ + "\n"@,
{
    print_str_colored(b, "warn", Color::Yellow);
    b.write_str(": ");
    b.write_str(s);
    b.write_char('\n');
    proof {
        reveal_strlit("\n");
    }
    assert(b@ =~= old(b)@ + spec_colored("warn"@, Color::Yellow) + ": "@ + s@ + "\n"@);
}

/// Writes a colored `error: ` line holding `s`.
pub fn err(b: &mut Builder, s: &str)
    ensures
        final(b)@ == old(b)@ + spec_colored("error"@, Color::Red) + ": "@ + s@ + "\n"@,
{
    print_str_colored(b, "error", Color::Red);
    b.write_str(": ");
    b.write_str(s);
    b.write_char('\n');
    proof {
        reveal_strlit("\n");
    }
    assert(b@ =~= old(b)@ + spec_colored("error"@, Color::Red) + ": "@ + s@ + "\n"@);
}


/// The first position at or after `i` holding a newline byte, or the end of
/// the buffer.
pub open spec fn nl_end(src: Seq<u8>, i: int) -> int
    decreases src.len() - i when 0 <= i <= src.len()
{
    if i >= src.len() {
        src.len() as int
    } else if src[i] == 10 {
        i
    } else {
        nl_end(src, i + 1)
    }
}

pub proof fn lemma_nl_end_bounds(src: Seq<u8>, i: int)
    requires
        0 <= i <= src.len(),
    ensures
        i <= nl_end(src, i) <= src.len(),
        forall|k: int| i <= k < nl_end(src, i) ==> src[k] != 10,
        nl_end(src, i) < src.len() ==> src[nl_end(src, i)] == 10,
    decreases src.len() - i,
{
    if i < src.len() && src[i] != 10 {
        lemma_nl_end_bounds(src, i + 1);
    }
}

/// The text of one source line `src[from..to]`, a trailing carriage return
/// dropped.
pub open spec fn spec_line_at(src: Seq<u8>, from: int, to: int) -> Seq<char> {
    let raw = src.subrange(from, to);
    bytes_text(
        if raw.len() > 0 && raw.last() == 13 {
            raw.drop_last()
        } else {
            raw
        },
    )
}

/// The lines of `src[i..]`: split at each newline byte, trailing carriage
/// returns dropped, the final fragment kept only when non-empty at the very
/// end of the buffer.
pub open spec fn spec_lines_from(src: Seq<u8>, i: int) -> Seq<Seq<char>>
    decreases src.len() - i when 0 <= i <= src.len() via spec_lines_from_dec
{
    if i >= src.len() {
        Seq::empty()
    } else {
        let e = nl_end(src, i);
        seq![spec_line_at(src, i, e)] + (if e < src.len() {
            spec_lines_from(src, e + 1)
        } else {
            Seq::empty()
        })
    }
}

#[via_fn]
proof fn spec_lines_from_dec(src: Seq<u8>, i: int) {
    lemma_nl_end_bounds(src, i);
}

/// The lines of the whole buffer.
pub open spec fn spec_lines(src: Seq<u8>) -> Seq<Seq<char>> {
    spec_lines_from(src, 0)
}

/// A buffer of n bytes splits into at most n + 1 lines.
pub proof fn lemma_lines_count(src: Seq<u8>, i: int)
    requires
        0 <= i <= src.len(),
    ensures
        spec_lines_from(src, i).len() <= src.len() - i + 1,
    decreases src.len() - i,
{
    if i < src.len() {
        lemma_nl_end_bounds(src, i);
        let e = nl_end(src, i);
        if e < src.len() {
            lemma_lines_count(src, e + 1);
        }
    }
}

/// A non-empty buffer has at least one line.
pub proof fn lemma_lines_nonempty(src: Seq<u8>)
    requires
        src.len() > 0,
    ensures
        spec_lines(src).len() >= 1,
{
}

/// Splits the buffer into its lines, exactly per [`spec_lines`].
pub fn split_lines(content: &Vec<u8>) -> (r: Vec<String>)
    ensures
        r.deep_view() == spec_lines(content@),
{
    let ghost src = content@;
    let mut r: Vec<String> = Vec::new();
    let mut i: usize = 0;
    while i < content.len()
        invariant
            0 <= i <= src.len(),
            src == content@,
            spec_lines(src) == r.deep_view() + spec_lines_from(src, i as int),
        decreases src.len() - i,
    {
        let ghost istart = i as int;
        proof {
            lemma_nl_end_bounds(src, i as int);
        }
        let ghost e_spec = nl_end(src, i as int);
        // find the end of the line
        let mut e = i;
        while e < content.len() && content[e] != 10
            invariant
                i <= e <= src.len(),
                src == content@,
                nl_end(src, e as int) == e_spec,
                forall|k: int| i <= k < e ==> src[k] != 10,
            decreases src.len() - e,
        {
            e = e + 1;
        }
        assert(e == e_spec);
        // drop a trailing carriage return
        let to = if e > i && content[e - 1] == 13 {
            e - 1
        } else {
            e
        };
        let line = bytes_to_string(content, i, to);
        proof {
            let raw = src.subrange(i as int, e as int);
            if raw.len() > 0 && raw.last() == 13 {
                assert(src.subrange(i as int, to as int) =~= raw.drop_last());
            } else {
                assert(src.subrange(i as int, to as int) =~= raw);
            }
        }
        assert(line@ == spec_line_at(src, istart, e as int));
        let ghost before_dv = r.deep_view();
        r.push(line);
        assert(r.deep_view() =~= before_dv.push(line@));
        if e < content.len() {
            i = e + 1;
            assert(spec_lines_from(src, istart) == seq![line@] + spec_lines_from(src, i as int));
            assert(spec_lines(src) =~= r.deep_view() + spec_lines_from(src, i as int));
        } else {
            i = e;
            assert(spec_lines_from(src, istart) =~= seq![line@]);
            assert(spec_lines(src) =~= r.deep_view() + spec_lines_from(src, i as int));
        }
    }
    assert(spec_lines_from(src, i as int) =~= Seq::<Seq<char>>::empty());
    assert(spec_lines(src) =~= r.deep_view());
    r
}


/// A line number as the renderer shows it: two digits, zero-padded.
pub open spec fn pad2(n: nat) -> Seq<char> {
    if n < 10 {
        "0"@ + spec_dec(n)
    } else {
        spec_dec(n)
    }
}

/// Renders a line number, two digits, zero-padded.
pub fn pad2_string(n: usize) -> (r: String)
    ensures
        r@ == pad2(n as nat),
{
    let mut r = String::new();
    if n < 10 {
        push_str(&mut r, "0");
    }
    let d = dec_string(n as u64);
    push_str(&mut r, d.as_str());
    r
}

/// The colored gutter label of one context line: ` NN | `.
pub open spec fn spec_label(n: nat) -> Seq<char> {
    spec_colored(" "@ + pad2(n) + " | "@, Color::Blue)
}

/// The header line of a rendered diagnostic.
#[verifier::opaque]
pub open spec fn spec_header(e: Error) -> Seq<char> {
    spec_colored("error"@, Color::Red) + "["@ + spec_colored(e.rule.spec_name(), Color::Red)
        + "]: "@ + e.msg@ + "\n"@
}

/// The location line: the resolved path and the one-based line and column.
#[verifier::opaque]
pub open spec fn spec_loc(e: Error, path: Seq<char>) -> Seq<char> {
    spec_colored(" -> "@, Color::Blue) + spec_colored(path, Color::Cyan) + spec_colored(
        ":"@ + spec_dec((e.line + 1) as nat) + ":"@ + spec_dec((e.start + 1) as nat),
        Color::Yellow,
    ) + "\n"@
}

/// Up to two lines of leading context above the anchor line.
#[verifier::opaque]
pub open spec fn spec_before(lines: Seq<Seq<char>>, line2: int) -> Seq<char> {
    (if line2 >= 2 && line2 - 2 < lines.len() {
        spec_label((line2 - 1) as nat) + lines[line2 - 2] + "\n"@
    } else {
        Seq::<char>::empty()
    }) + (if line2 >= 2 && line2 - 1 < lines.len() {
        spec_label(line2 as nat) + lines[line2 - 1] + "\n"@
    } else {
        Seq::<char>::empty()
    })
}

/// The anchor line itself with its gutter.
#[verifier::opaque]
pub open spec fn spec_offending(lines: Seq<Seq<char>>, line2: int) -> Seq<char> {
    spec_label((line2 + 1) as nat) + lines[line2] + spec_colored("\n    |"@, Color::Blue)
}

/// The underline: spaces to the start column, carets over the span (width at
/// least one), and the caption.
#[verifier::opaque]
pub open spec fn spec_underline(start: nat, end2: nat) -> Seq<char> {
    spec_colored(
        " "@ + Seq::new(start, |i: int| ' ') + Seq::new(
            if end2 > start {
                (end2 - start) as nat
            } else {
                1 as nat
            },
            |i: int| '^',
        ) + " error occurs here.\n"@,
        Color::Red,
    )
}

/// Up to two lines of trailing context below the anchor line.
#[verifier::opaque]
pub open spec fn spec_after(lines: Seq<Seq<char>>, line2: int) -> Seq<char> {
    (if line2 + 1 < lines.len() {
        spec_label((line2 + 2) as nat) + lines[line2 + 1] + "\n"@
    } else {
        Seq::<char>::empty()
    }) + (if line2 + 2 < lines.len() {
        spec_label((line2 + 3) as nat) + lines[line2 + 2] + "\n"@
    } else {
        Seq::<char>::empty()
    })
}

/// The note and the rule's fixed description.
#[verifier::opaque]
pub open spec fn spec_notes(e: Error) -> Seq<char> {
    spec_colored("    |\n"@, Color::Blue) + spec_colored("    ~ note: "@, Color::Blue) + e.note@
        + "\n"@ + spec_colored("  * "@, Color::Blue) + spec_colored(
        e.rule.spec_name(),
        Color::Blue,
    ) + ": "@ + e.rule.spec_description() + "\n"@
}

/// The optional documentation reference line.
#[verifier::opaque]
pub open spec fn spec_docs(e: Error) -> Seq<char> {
    match e.doc_url {
        Some(url) => "\n"@ + spec_colored(" docs"@, Color::Blue) + ": "@ + url@ + "\n"@,
        None => Seq::<char>::empty(),
    }
}

/// The full rendered text of a diagnostic against its source buffer: the
/// header line, the location line, up to two lines of leading context, the
/// anchor line with its underline, up to two lines of trailing context, the
/// note, the rule description and the optional documentation reference. An
/// empty buffer stops after the header. A no-statements diagnostic is
/// re-anchored at the last line of the buffer with a zero-width span.
pub open spec fn spec_render(e: Error, src: Seq<u8>, path: Seq<char>) -> Seq<char> {
    if src.len() == 0 {
        spec_header(e)
    } else {
        let lines = spec_lines(src);
        let line2 = if e.rule is NoStatements {
            lines.len() - 1
        } else {
            e.line as int
        };
        let end2 = if e.rule is NoStatements {
            0 as nat
        } else {
            e.end as nat
        };
        spec_header(e) + spec_loc(e, path) + spec_before(lines, line2) + spec_offending(
            lines,
            line2,
        ) + spec_underline(e.start as nat, end2) + spec_after(lines, line2) + spec_notes(e)
            + spec_docs(e)
    }
}

/// Writes one context line: the colored gutter label ` NN | `, the line
/// text, a newline.
fn print_labelled_line(b: &mut Builder, num: usize, line: &String)
    ensures
        final(b)@ == old(b)@ + spec_label(num as nat) + line@ + "\n"@,
{
    let lbl = pad2_string(num);
    let mut label = String::new();
    push_str(&mut label, " ");
    push_str(&mut label, lbl.as_str());
    push_str(&mut label, " | ");
    print_str_colored(b, label.as_str(), Color::Blue);
    b.write_str(line.as_str());
    b.write_str("\n");
    assert(label@ =~= " "@ + pad2(num as nat) + " | "@);
}

/// Writes up to two lines of leading context above the anchor line.
fn print_before(b: &mut Builder, lines: &Vec<String>, line2: usize)
    requires
        line2 < lines@.len(),
        lines@.len() <= usize::MAX - 3,
    ensures
        final(b)@ == old(b)@ + spec_before(lines.deep_view(), line2 as int),
{
    let ghost dv = lines.deep_view();
    assert(dv.len() == lines@.len());
    assert(forall|i: int| 0 <= i < lines@.len() ==> dv[i] == lines@[i]@);
    if line2 >= 2 {
        if line2 - 2 < lines.len() {
            print_labelled_line(b, line2 - 1, &lines[line2 - 2]);
        }
        if line2 - 1 < lines.len() {
            print_labelled_line(b, line2, &lines[line2 - 1]);
        }
    }
    assert(b@ =~= old(b)@ + spec_before(dv, line2 as int)) by {
        reveal(spec_before);
    }
}

/// Writes up to two lines of trailing context below the anchor line.
fn print_after(b: &mut Builder, lines: &Vec<String>, line2: usize)
    requires
        line2 < lines@.len(),
        lines@.len() <= usize::MAX - 3,
    ensures
        final(b)@ == old(b)@ + spec_after(lines.deep_view(), line2 as int),
{
    let ghost dv = lines.deep_view();
    assert(dv.len() == lines@.len());
    assert(forall|i: int| 0 <= i < lines@.len() ==> dv[i] == lines@[i]@);
    if line2 + 1 < lines.len() {
        print_labelled_line(b, line2 + 2, &lines[line2 + 1]);
    }
    if line2 + 2 < lines.len() {
        print_labelled_line(b, line2 + 3, &lines[line2 + 2]);
    }
    assert(b@ =~= old(b)@ + spec_after(dv, line2 as int)) by {
        reveal(spec_after);
    }
}

/// Writes the context block around the anchor line: up to two leading lines,
/// the anchor line, the underline, up to two trailing lines.
fn print_context(b: &mut Builder, lines: &Vec<String>, line2: usize, start: usize, end2: usize)
    requires
        line2 < lines@.len(),
        lines@.len() <= usize::MAX - 3,
    ensures
        final(b)@ == old(b)@ + spec_before(lines.deep_view(), line2 as int) + spec_offending(
            lines.deep_view(),
            line2 as int,
        ) + spec_underline(start as nat, end2 as nat) + spec_after(
            lines.deep_view(),
            line2 as int,
        ),
{
    let ghost dv = lines.deep_view();
    assert(dv.len() == lines@.len());
    assert(forall|i: int| 0 <= i < lines@.len() ==> dv[i] == lines@[i]@);
    print_before(b, lines, line2);

    let lbl = pad2_string(line2 + 1);
    let mut label = String::new();
    push_str(&mut label, " ");
    push_str(&mut label, lbl.as_str());
    push_str(&mut label, " | ");
    print_str_colored(b, label.as_str(), Color::Blue);
    b.write_str(lines[line2].as_str());
    print_str_colored(b, "\n    |", Color::Blue);
    assert(label@ =~= " "@ + pad2((line2 + 1) as nat) + " | "@);
    assert(b@ =~= old(b)@ + spec_before(dv, line2 as int) + spec_offending(dv, line2 as int))
        by {
        reveal(spec_offending);
    }

    let repeat: usize = if end2 > start {
        end2 - start
    } else {
        1
    };
    let mut marker = String::new();
    push_str(&mut marker, " ");
    crate::text::push_repeated(&mut marker, ' ', start);
    crate::text::push_repeated(&mut marker, '^', repeat);
    push_str(&mut marker, " error occurs here.\n");
    print_str_colored(b, marker.as_str(), Color::Red);
    assert(marker@ =~= " "@ + Seq::new(start as nat, |i: int| ' ') + Seq::new(
        if end2 as nat > start as nat {
            (end2 - start) as nat
        } else {
            1 as nat
        },
        |i: int| '^',
    ) + " error occurs here.\n"@);
    assert(b@ =~= old(b)@ + spec_before(dv, line2 as int) + spec_offending(dv, line2 as int)
        + spec_underline(start as nat, end2 as nat)) by {
        reveal(spec_underline);
    }

    print_after(b, lines, line2);
    assert(b@ =~= old(b)@ + spec_before(dv, line2 as int) + spec_offending(dv, line2 as int)
        + spec_underline(start as nat, end2 as nat) + spec_after(dv, line2 as int));
}

/// Writes the header line of a diagnostic.
fn print_header(b: &mut Builder, e: &Error)
    ensures
        final(b)@ == old(b)@ + spec_header(*e),
{
    print_str_colored(b, "error", Color::Red);
    b.write_str("[");
    print_str_colored(b, e.rule.name(), Color::Red);
    b.write_str("]: ");
    b.write_str(e.msg.as_str());
    b.write_str("\n");
    assert(b@ =~= old(b)@ + spec_header(*e)) by {
        reveal(spec_header);
    }
}

/// Writes the location line of a diagnostic.
fn print_location(b: &mut Builder, e: &Error, canonical: Option<&str>)
    requires
        e.line < usize::MAX,
        e.start < usize::MAX,
    ensures
        final(b)@ == old(b)@ + spec_loc(
            *e,
            match canonical {
                Some(p) => p@,
                None => e.file@,
            },
        ),
{
    let ghost path_spec: Seq<char> = match canonical {
        Some(p) => p@,
        None => e.file@,
    };
    print_str_colored(b, " -> ", Color::Blue);
    // the canonical path resolves symlinks; fall back to the raw name
    match canonical {
        Some(p) => print_str_colored(b, p, Color::Cyan),
        None => print_str_colored(b, e.file.as_str(), Color::Cyan),
    }
    let mut locnum = String::new();
    push_str(&mut locnum, ":");
    // zero based indexing, shown as human friendly numbers
    let l1 = dec_string((e.line + 1) as u64);
    push_str(&mut locnum, l1.as_str());
    push_str(&mut locnum, ":");
    let c1 = dec_string((e.start + 1) as u64);
    push_str(&mut locnum, c1.as_str());
    print_str_colored(b, locnum.as_str(), Color::Yellow);
    b.write_str("\n");
    assert(b@ =~= old(b)@ + spec_loc(*e, path_spec)) by {
        reveal(spec_loc);
    }
}

/// Writes the note, the rule description and the optional documentation
/// reference of a diagnostic.
fn print_footer(b: &mut Builder, e: &Error)
    ensures
        final(b)@ == old(b)@ + spec_notes(*e) + spec_docs(*e),
{
    print_str_colored(b, "    |\n", Color::Blue);
    print_str_colored(b, "    ~ note: ", Color::Blue);
    b.write_str(e.note.as_str());
    b.write_str("\n");

    print_str_colored(b, "  * ", Color::Blue);
    print_str_colored(b, e.rule.name(), Color::Blue);
    b.write_str(": ");
    b.write_str(e.rule.description());
    b.write_str("\n");
    assert(b@ =~= old(b)@ + spec_notes(*e)) by {
        reveal(spec_notes);
    }

    match e.doc_url {
        Some(url) => {
            b.write_str("\n");
            print_str_colored(b, " docs", Color::Blue);
            b.write_str(": ");
            b.write_str(url);
            b.write_str("\n");
        },
        None => {},
    }
    assert(b@ =~= old(b)@ + spec_notes(*e) + spec_docs(*e)) by {
        reveal(spec_docs);
    }
}

impl Error {
    /// Renders the diagnostic into the builder against the source buffer it
    /// was derived from, exactly per [`spec_render`]. `canonical` is the
    /// resolved absolute form of the file path, when the host environment
    /// could resolve one; the raw path stands in otherwise. A no-statements
    /// diagnostic rewrites its own anchor to the last line of the buffer.
    #[verifier::rlimit(100)]
    #[verifier::spinoff_prover]
    pub fn print(&mut self, b: &mut Builder, content: &Vec<u8>, canonical: Option<&str>)
        requires
            content@.len() <= usize::MAX - 4,
            old(self).line < usize::MAX,
            old(self).start < usize::MAX,
            content@.len() > 0 ==> (old(self).rule is NoStatements || (old(self).line as int)
                < spec_lines(content@).len()),
        ensures
            final(b)@ == old(b)@ + spec_render(
                *old(self),
                content@,
                match canonical {
                    Some(p) => p@,
                    None => old(self).file@,
                },
            ),
            final(self).file == old(self).file,
            final(self).rule == old(self).rule,
            final(self).note == old(self).note,
            final(self).msg == old(self).msg,
            final(self).start == old(self).start,
            final(self).improved_line == old(self).improved_line,
            final(self).doc_url == old(self).doc_url,
            (content@.len() > 0 && old(self).rule is NoStatements) ==> final(self).line
                == spec_lines(content@).len() - 1 && final(self).end == 0,
            !(content@.len() > 0 && old(self).rule is NoStatements) ==> final(self).line == old(
                self,
            ).line && final(self).end == old(self).end,
    {
        let ghost path_spec: Seq<char> = match canonical {
            Some(p) => p@,
            None => self.file@,
        };
        print_header(b, self);

        if content.len() == 0 {
            return ;
        }
        proof {
            lemma_lines_nonempty(content@);
        }

        print_location(b, self, canonical);
        let ghost header_loc = spec_header(*old(self)) + spec_loc(*old(self), path_spec);
        assert(b@ =~= old(b)@ + header_loc);

        let lines = split_lines(content);
        proof {
            lemma_lines_count(content@, 0);
        }

        // an end-of-file diagnostic always highlights the last line
        if matches!(self.rule, Rule::NoStatements) {
            self.line = lines.len() - 1;
            self.end = 0;
        }
        assert(self.line < lines@.len());

        print_context(b, &lines, self.line, self.start, self.end);
        let ghost line2 = self.line as int;
        let ghost end2 = self.end as nat;
        let ghost ctx = spec_before(lines.deep_view(), line2) + spec_offending(
            lines.deep_view(),
            line2,
        ) + spec_underline(old(self).start as nat, end2) + spec_after(lines.deep_view(), line2);
        assert(b@ =~= old(b)@ + header_loc + ctx);

        print_footer(b, self);
        assert(spec_notes(*self) == spec_notes(*old(self))) by {
            reveal(spec_notes);
        }
        assert(spec_docs(*self) == spec_docs(*old(self))) by {
            reveal(spec_docs);
        }
        assert(b@ =~= old(b)@ + header_loc + ctx + spec_notes(*old(self)) + spec_docs(
            *old(self),
        ));
        assert(b@ =~= old(b)@ + spec_render(*old(self), content@, path_spec));
    }
}


/// The diagnostics that survive suppression by `disabled`: exactly those
/// whose rule is not in the set, in their original order.
pub open spec fn spec_suppress(errors: Seq<Error>, disabled: Seq<Rule>) -> Seq<Error> {
    errors.filter(|e: Error| !disabled.contains(e.rule))
}

/// Whether `disabled` holds `rule`.
pub fn rule_disabled(disabled: &Vec<Rule>, rule: Rule) -> (r: bool)
    ensures
        r == disabled@.contains(rule),
{
    let mut i: usize = 0;
    while i < disabled.len()
        invariant
            i <= disabled@.len(),
            forall|k: int| 0 <= k < i ==> disabled@[k] != rule,
        decreases disabled@.len() - i,
    {
        if disabled[i] == rule {
            return true;
        }
        i = i + 1;
    }
    false
}

/// Filters a diagnostic list by a set of disabled rules: a pure post-pass
/// that removes exactly the diagnostics whose rule is disabled and leaves the
/// order and content of the rest unchanged. Suppression never changes
/// scanning or parsing behaviour; it only hides output.
pub fn filter_diagnostics(errors: Vec<Error>, disabled: &Vec<Rule>) -> (r: Vec<Error>)
    ensures
        r@ == spec_suppress(errors@, disabled@),
{
    let mut r: Vec<Error> = Vec::new();
    let mut i: usize = 0;
    proof {
        reveal(Seq::filter);
        assert(errors@.take(0) =~= Seq::<Error>::empty());
    }
    while i < errors.len()
        invariant
            i <= errors@.len(),
            r@ == spec_suppress(errors@.take(i as int), disabled@),
        decreases errors@.len() - i,
    {
        let keep = !rule_disabled(disabled, errors[i].rule);
        if keep {
            let mut e = errors[i].clone();
            // a clone of a diagnostic is the diagnostic itself: copy the
            // fields across to keep the exact value
            e = Error {
                file: errors[i].file.clone(),
                line: errors[i].line,
                rule: errors[i].rule,
                note: errors[i].note.clone(),
                msg: errors[i].msg.clone(),
                start: errors[i].start,
                end: errors[i].end,
                improved_line: match &errors[i].improved_line {
                    Some(il) => Some(ImprovedLine { snippet: il.snippet, start: il.start }),
                    None => None,
                },
                doc_url: errors[i].doc_url,
            };
            assert(e == errors@[i as int]);
            r.push(e);
        }
        i = i + 1;
        proof {
            reveal(Seq::filter);
            assert(errors@.take(i as int).drop_last() =~= errors@.take(i - 1));
            assert(errors@.take(i as int).last() == errors@[i - 1]);
        }
    }
    proof {
        assert(errors@.take(errors@.len() as int) =~= errors@);
    }
    r
}

/// Suppression law: filtering by a rule set `R` removes exactly the
/// diagnostics whose rule is in `R`. Every kept diagnostic's rule is outside
/// `R`, every diagnostic whose rule is outside `R` is kept, every kept
/// diagnostic comes from the original list, and the result never grows; the
/// kept diagnostics stand in their original order, the result being the
/// filter of the original list.
pub proof fn lemma_suppression_law(errors: Seq<Error>, disabled: Seq<Rule>)
    ensures
        forall|i: int|
            0 <= i < spec_suppress(errors, disabled).len() ==> !disabled.contains(
                #[trigger] spec_suppress(errors, disabled)[i].rule,
            ),
        forall|i: int|
            0 <= i < spec_suppress(errors, disabled).len() ==> errors.contains(
                #[trigger] spec_suppress(errors, disabled)[i],
            ),
        forall|i: int|
            0 <= i < errors.len() && !disabled.contains(errors[i].rule) ==> spec_suppress(
                errors,
                disabled,
            ).contains(#[trigger] errors[i]),
        spec_suppress(errors, disabled).len() <= errors.len(),
{
    let pred = |e: Error| !disabled.contains(e.rule);
    errors.lemma_filter_len(pred);
    assert forall|i: int|
        0 <= i < spec_suppress(errors, disabled).len() implies !disabled.contains(
        #[trigger] spec_suppress(errors, disabled)[i].rule,
    ) by {
        errors.lemma_filter_pred(pred, i);
    }
    lemma_filter_subset(errors, pred);
    assert forall|i: int|
        0 <= i < errors.len() && !disabled.contains(errors[i].rule) implies spec_suppress(
        errors,
        disabled,
    ).contains(#[trigger] errors[i]) by {
        errors.lemma_filter_contains(pred, i);
    }
}


/// Every element of a filtered sequence comes from the original sequence.
proof fn lemma_filter_subset(s: Seq<Error>, pred: spec_fn(Error) -> bool)
    ensures
        forall|i: int|
            0 <= i < s.filter(pred).len() ==> s.contains(#[trigger] s.filter(pred)[i]),
    decreases s.len(),
{
    reveal(Seq::filter);
    if s.len() > 0 {
        lemma_filter_subset(s.drop_last(), pred);
        assert forall|i: int|
            0 <= i < s.filter(pred).len() implies s.contains(#[trigger] s.filter(pred)[i]) by {
            let sub = s.drop_last().filter(pred);
            if i < sub.len() {
                assert(s.drop_last().contains(sub[i]));
                let k = choose|k: int| 0 <= k < s.drop_last().len() && s.drop_last()[k] == sub[i];
                assert(s[k] == sub[i]);
            } else {
                assert(s.filter(pred)[i] == s.last());
                assert(s[s.len() - 1] == s.last());
            }
        }
    }
}

} // verus!
