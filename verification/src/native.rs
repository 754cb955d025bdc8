//! The calls into `docx-rs`.
//!
//! Values of `docx-rs` are opaque here. For each of its types that the
//! library hands on, a spec function names the content that the value
//! stands for, or `None` where the value holds something that the
//! library's own types cannot express. Every function below makes one call
//! and states, without proof, what that call does to the named content.
//!
//! A type of `docx-rs` whose name the library uses for a type of its own
//! is imported here under a name that begins with `Docx`.

use vstd::prelude::*;
pub use docx_rs::Comment as DocxComment;
pub use docx_rs::Delete as DocxDelete;
pub use docx_rs::Insert as DocxInsert;
pub use docx_rs::LineSpacing as DocxSpacing;
pub use docx_rs::Paragraph as DocxParagraph;
pub use docx_rs::Run as DocxRun;
pub use docx_rs::RunFonts as DocxFonts;
use crate::content::{ChildView, CommentView, ParagraphView};
use crate::format::{
    AlignmentType, Indent, LineSpacing, LineSpacingType, Numbering, SpecialIndent,
    SpecialIndentKind,
};
use crate::revision::ChangeView;
use crate::run::{
    attr_written, text_written, BreakType, FontsView, RunChildView, RunPropertyView, RunView,
};

verus! {

#[verifier::external_type_specification]
#[verifier::external_body]
pub struct ExRunFonts(DocxFonts);

#[verifier::external_type_specification]
#[verifier::external_body]
pub struct ExRun(DocxRun);

#[verifier::external_type_specification]
#[verifier::external_body]
pub struct ExInsert(DocxInsert);

#[verifier::external_type_specification]
#[verifier::external_body]
pub struct ExDelete(DocxDelete);

#[verifier::external_type_specification]
#[verifier::external_body]
pub struct ExComment(DocxComment);

#[verifier::external_type_specification]
#[verifier::external_body]
pub struct ExSpacing(DocxSpacing);

#[verifier::external_type_specification]
#[verifier::external_body]
pub struct ExParagraph(DocxParagraph);

#[verifier::external_type_specification]
#[verifier::external_body]
pub struct ExDocx(docx_rs::Docx);

/// The font slots that a `docx_rs::RunFonts` holds.
pub uninterp spec fn fonts_view(f: DocxFonts) -> Option<FontsView>;

/// The content and formatting that a `docx_rs::Run` holds.
pub uninterp spec fn run_view(r: DocxRun) -> Option<RunView>;

/// The runs, author and date that a `docx_rs::Insert` holds.
pub uninterp spec fn insert_view(n: DocxInsert) -> Option<ChangeView>;

/// The runs, author and date that a `docx_rs::Delete` holds.
pub uninterp spec fn delete_view(n: DocxDelete) -> Option<ChangeView>;

/// The id, author, date and paragraphs that a `docx_rs::Comment` holds.
pub uninterp spec fn comment_view(c: DocxComment) -> Option<CommentView>;

/// The values that a `docx_rs::LineSpacing` holds whose space between
/// lines, if set, is not negative.
pub uninterp spec fn spacing_view(s: DocxSpacing) -> Option<LineSpacing>;

/// The children and formatting that a `docx_rs::Paragraph` holds whose id
/// is blank and whose flag for numbering in use is set exactly when the
/// formatting holds a numbering reference.
pub uninterp spec fn paragraph_view(p: DocxParagraph) -> Option<ParagraphView>;

/// The paragraphs that a `docx_rs::Docx` holds whose two flags for
/// numbering in use are set exactly when one of the paragraphs has its own
/// set, and that is otherwise as `docx_rs::Docx::new` makes it.
pub uninterp spec fn docx_view(d: docx_rs::Docx) -> Option<Seq<ParagraphView>>;

/// The bytes of the package that `docx-rs` writes for the given paragraphs,
/// or `None` where it fails to write one. The bytes are those of one build:
/// the archive records whether it was written by a build for Windows.
pub uninterp spec fn packed(paragraphs: Seq<ParagraphView>) -> Option<Seq<u8>>;

/// Whether a child of a paragraph is a tracked change.
pub open spec fn is_change(child: ChildView) -> bool {
    child is Insert || child is Delete
}

/// Whether a comment's own paragraphs hold runs only.
pub open spec fn comment_of_runs(c: CommentView) -> bool {
    forall|k: int, l: int|
        0 <= k < c.paragraphs.len() && 0 <= l < c.paragraphs[k].children.len()
            ==> #[trigger] c.paragraphs[k].children[l] is Run
}

/// Whether no tracked change occurs among the paragraphs, and every comment
/// among them holds runs only. `docx-rs` numbers tracked changes from a
/// counter of the process, so only without them is the package a function
/// of the paragraphs.
pub open spec fn free_of_changes(paragraphs: Seq<ParagraphView>) -> bool {
    forall|i: int, j: int|
        0 <= i < paragraphs.len() && 0 <= j < paragraphs[i].children.len() ==> {
            let child = #[trigger] paragraphs[i].children[j];
            &&& !is_change(child)
            &&& child matches ChildView::CommentStart(c) ==> comment_of_runs(c)
        }
}

/// `docx_rs::RunFonts::new`: fonts with every slot unset.
#[verifier::external_body]
pub(crate) fn fonts_new() -> (out: DocxFonts)
    ensures
        fonts_view(out) == Some(FontsView::empty()),
{
    DocxFonts::new()
}

/// `docx_rs::RunFonts::ascii`: sets the ASCII slot and leaves the others.
#[verifier::external_body]
pub(crate) fn fonts_ascii(f: DocxFonts, name: &str) -> (out: DocxFonts)
    requires
        fonts_view(f) is Some,
    ensures
        fonts_view(out) == Some(
            FontsView { ascii: Some(attr_written(name@)), ..fonts_view(f).unwrap() },
        ),
{
    f.ascii(name)
}

/// `docx_rs::RunFonts::hi_ansi`: sets the high-ANSI slot and leaves the
/// others.
#[verifier::external_body]
pub(crate) fn fonts_hi_ansi(f: DocxFonts, name: &str) -> (out: DocxFonts)
    requires
        fonts_view(f) is Some,
    ensures
        fonts_view(out) == Some(
            FontsView { hi_ansi: Some(attr_written(name@)), ..fonts_view(f).unwrap() },
        ),
{
    f.hi_ansi(name)
}

/// `docx_rs::RunFonts::east_asia`: sets the East Asian slot and leaves the
/// others.
#[verifier::external_body]
pub(crate) fn fonts_east_asia(f: DocxFonts, name: &str) -> (out: DocxFonts)
    requires
        fonts_view(f) is Some,
    ensures
        fonts_view(out) == Some(
            FontsView { east_asia: Some(attr_written(name@)), ..fonts_view(f).unwrap() },
        ),
{
    f.east_asia(name)
}

/// `docx_rs::RunFonts::cs`: sets the complex-script slot and leaves the
/// others.
#[verifier::external_body]
pub(crate) fn fonts_cs(f: DocxFonts, name: &str) -> (out: DocxFonts)
    requires
        fonts_view(f) is Some,
    ensures
        fonts_view(out) == Some(
            FontsView { cs: Some(attr_written(name@)), ..fonts_view(f).unwrap() },
        ),
{
    f.cs(name)
}

/// `docx_rs::Run::new`: a run without content or formatting.
#[verifier::external_body]
pub(crate) fn run_new() -> (out: DocxRun)
    ensures
        run_view(out) == Some(RunView::empty()),
{
    DocxRun::new()
}

/// `docx_rs::Run::add_text`: appends the text, which it keeps without line
/// feeds and, escaped, without carriage returns.
#[verifier::external_body]
pub(crate) fn run_add_text(r: DocxRun, text: &str) -> (out: DocxRun)
    requires
        run_view(r) is Some,
    ensures
        run_view(out) == Some(
            run_view(r).unwrap().with_child(RunChildView::Text(text_written(text@))),
        ),
{
    r.add_text(text)
}

/// `docx_rs::Run::add_break`: appends a break of the given kind.
#[verifier::external_body]
pub(crate) fn run_add_break(r: DocxRun, break_type: BreakType) -> (out: DocxRun)
    requires
        run_view(r) is Some,
    ensures
        run_view(out) == Some(run_view(r).unwrap().with_child(RunChildView::Break(break_type))),
{
    r.add_break(
        match break_type {
            BreakType::Page => docx_rs::BreakType::Page,
            BreakType::Column => docx_rs::BreakType::Column,
            BreakType::TextWrapping => docx_rs::BreakType::TextWrapping,
        },
    )
}

/// `docx_rs::Run::bold`: switches bold on.
#[verifier::external_body]
pub(crate) fn run_bold(r: DocxRun) -> (out: DocxRun)
    requires
        run_view(r) is Some,
    ensures
        run_view(out) == Some(
            run_view(r).unwrap().with_property(run_view(r).unwrap().property.with_bold()),
        ),
{
    r.bold()
}

/// `docx_rs::Run::italic`: switches italic on.
#[verifier::external_body]
pub(crate) fn run_italic(r: DocxRun) -> (out: DocxRun)
    requires
        run_view(r) is Some,
    ensures
        run_view(out) == Some(
            run_view(r).unwrap().with_property(run_view(r).unwrap().property.with_italic()),
        ),
{
    r.italic()
}

/// `docx_rs::Run::size`: sets the font size.
#[verifier::external_body]
pub(crate) fn run_size(r: DocxRun, size: usize) -> (out: DocxRun)
    requires
        run_view(r) is Some,
    ensures
        run_view(out) == Some(
            run_view(r).unwrap().with_property(run_view(r).unwrap().property.with_size(size)),
        ),
{
    r.size(size)
}

/// `docx_rs::Run::fonts`: sets the fonts.
#[verifier::external_body]
pub(crate) fn run_fonts(r: DocxRun, f: DocxFonts) -> (out: DocxRun)
    requires
        run_view(r) is Some,
        fonts_view(f) is Some,
    ensures
        run_view(out) == Some(
            run_view(r).unwrap().with_property(
                run_view(r).unwrap().property.with_fonts(fonts_view(f).unwrap()),
            ),
        ),
{
    r.fonts(f)
}

/// `docx_rs::Insert::new_with_empty`: an insertion without runs, with the
/// author and date that `docx-rs` fills in.
#[verifier::external_body]
pub(crate) fn insert_new() -> (out: DocxInsert)
    ensures
        insert_view(out) == Some(ChangeView::unnamed()),
{
    DocxInsert::new_with_empty()
}

/// `docx_rs::Insert::add_run`: appends a run.
#[verifier::external_body]
pub(crate) fn insert_add_run(n: DocxInsert, r: DocxRun) -> (out: DocxInsert)
    requires
        insert_view(n) is Some,
        run_view(r) is Some,
    ensures
        insert_view(out) == Some(insert_view(n).unwrap().with_run(run_view(r).unwrap())),
{
    n.add_run(r)
}

/// `docx_rs::Insert::author`: sets the author, which it keeps escaped and
/// without carriage returns.
#[verifier::external_body]
pub(crate) fn insert_author(n: DocxInsert, author: &str) -> (out: DocxInsert)
    requires
        insert_view(n) is Some,
    ensures
        insert_view(out) == Some(insert_view(n).unwrap().with_author(attr_written(author@))),
{
    n.author(author)
}

/// `docx_rs::Insert::date`: sets the date, which it keeps as given.
#[verifier::external_body]
pub(crate) fn insert_date(n: DocxInsert, date: &str) -> (out: DocxInsert)
    requires
        insert_view(n) is Some,
    ensures
        insert_view(out) == Some(insert_view(n).unwrap().with_date(date@)),
{
    n.date(date)
}

/// `docx_rs::Delete::new`: a deletion without runs, with the author and
/// date that `docx-rs` fills in.
#[verifier::external_body]
pub(crate) fn delete_new() -> (out: DocxDelete)
    ensures
        delete_view(out) == Some(ChangeView::unnamed()),
{
    DocxDelete::new()
}

/// `docx_rs::Delete::add_run`: appends a run.
#[verifier::external_body]
pub(crate) fn delete_add_run(n: DocxDelete, r: DocxRun) -> (out: DocxDelete)
    requires
        delete_view(n) is Some,
        run_view(r) is Some,
    ensures
        delete_view(out) == Some(delete_view(n).unwrap().with_run(run_view(r).unwrap())),
{
    n.add_run(r)
}

/// `docx_rs::Delete::author`: sets the author, which it keeps escaped and
/// without carriage returns.
#[verifier::external_body]
pub(crate) fn delete_author(n: DocxDelete, author: &str) -> (out: DocxDelete)
    requires
        delete_view(n) is Some,
    ensures
        delete_view(out) == Some(delete_view(n).unwrap().with_author(attr_written(author@))),
{
    n.author(author)
}

/// `docx_rs::Delete::date`: sets the date, which it keeps as given.
#[verifier::external_body]
pub(crate) fn delete_date(n: DocxDelete, date: &str) -> (out: DocxDelete)
    requires
        delete_view(n) is Some,
    ensures
        delete_view(out) == Some(delete_view(n).unwrap().with_date(date@)),
{
    n.date(date)
}

/// `docx_rs::Comment::new`: the comment `id` without paragraphs, with the
/// author and date that `docx-rs` fills in.
#[verifier::external_body]
pub(crate) fn comment_new(id: usize) -> (out: DocxComment)
    ensures
        comment_view(out) == Some(CommentView::unnamed(id)),
{
    DocxComment::new(id)
}

/// `docx_rs::Comment::author`: sets the author, which it keeps as given.
#[verifier::external_body]
pub(crate) fn comment_author(c: DocxComment, author: &str) -> (out: DocxComment)
    requires
        comment_view(c) is Some,
    ensures
        comment_view(out) == Some(comment_view(c).unwrap().with_author(author@)),
{
    c.author(author)
}

/// `docx_rs::Comment::date`: sets the date, which it keeps as given.
#[verifier::external_body]
pub(crate) fn comment_date(c: DocxComment, date: &str) -> (out: DocxComment)
    requires
        comment_view(c) is Some,
    ensures
        comment_view(out) == Some(comment_view(c).unwrap().with_date(date@)),
{
    c.date(date)
}

/// `docx_rs::Comment::add_paragraph`: appends a paragraph to the comment's
/// own text.
#[verifier::external_body]
pub(crate) fn comment_add_paragraph(c: DocxComment, p: DocxParagraph) -> (out: DocxComment)
    requires
        comment_view(c) is Some,
        paragraph_view(p) is Some,
    ensures
        comment_view(out) == Some(
            comment_view(c).unwrap().with_paragraph(paragraph_view(p).unwrap()),
        ),
{
    c.add_paragraph(p)
}

/// `docx_rs::LineSpacing::new`: a line spacing with nothing set.
#[verifier::external_body]
pub(crate) fn spacing_new() -> (out: DocxSpacing)
    ensures
        spacing_view(out) == Some(
            LineSpacing { before: None, after: None, line: None, spacing_type: None },
        ),
{
    DocxSpacing::new()
}

/// `docx_rs::LineSpacing::before`: sets the space before the paragraph.
#[verifier::external_body]
pub(crate) fn spacing_before(s: DocxSpacing, before: u32) -> (out: DocxSpacing)
    requires
        spacing_view(s) is Some,
    ensures
        spacing_view(out) == Some(LineSpacing { before: Some(before), ..spacing_view(s).unwrap() }),
{
    s.before(before)
}

/// `docx_rs::LineSpacing::after`: sets the space after the paragraph.
#[verifier::external_body]
pub(crate) fn spacing_after(s: DocxSpacing, after: u32) -> (out: DocxSpacing)
    requires
        spacing_view(s) is Some,
    ensures
        spacing_view(out) == Some(LineSpacing { after: Some(after), ..spacing_view(s).unwrap() }),
{
    s.after(after)
}

/// `docx_rs::LineSpacing::line`: sets the space between lines, here to a
/// value that is not negative.
#[verifier::external_body]
pub(crate) fn spacing_line(s: DocxSpacing, line: i32) -> (out: DocxSpacing)
    requires
        spacing_view(s) is Some,
        0 <= line,
    ensures
        spacing_view(out) == Some(
            LineSpacing { line: Some(line as u32), ..spacing_view(s).unwrap() },
        ),
{
    s.line(line)
}

/// `docx_rs::LineSpacing::line_rule`: sets how the space between lines is
/// read.
#[verifier::external_body]
pub(crate) fn spacing_rule(s: DocxSpacing, rule: LineSpacingType) -> (out: DocxSpacing)
    requires
        spacing_view(s) is Some,
    ensures
        spacing_view(out) == Some(
            LineSpacing { spacing_type: Some(rule), ..spacing_view(s).unwrap() },
        ),
{
    s.line_rule(
        match rule {
            LineSpacingType::Auto => docx_rs::LineSpacingType::Auto,
            LineSpacingType::AtLeast => docx_rs::LineSpacingType::AtLeast,
            LineSpacingType::Exact => docx_rs::LineSpacingType::Exact,
        },
    )
}

/// A `docx_rs::Paragraph` put together from its fields: a blank id, no
/// children, the formatting that `docx_rs::ParagraphProperty::new` gives,
/// and no numbering in use. `docx_rs::Paragraph::new` is not called: it
/// takes the id from a counter that can run out. With a blank id `docx-rs`
/// numbers the paragraph when the package is written.
#[verifier::external_body]
pub(crate) fn paragraph_new() -> (out: DocxParagraph)
    ensures
        paragraph_view(out) == Some(ParagraphView::empty()),
{
    DocxParagraph {
        id: String::new(),
        children: Vec::new(),
        property: docx_rs::ParagraphProperty::new(),
        has_numbering: false,
    }
}

/// `docx_rs::Paragraph::add_run`: appends a run.
#[verifier::external_body]
pub(crate) fn paragraph_add_run(p: DocxParagraph, r: DocxRun) -> (out: DocxParagraph)
    requires
        paragraph_view(p) is Some,
        run_view(r) is Some,
    ensures
        paragraph_view(out) == Some(
            paragraph_view(p).unwrap().with_child(ChildView::Run(run_view(r).unwrap())),
        ),
{
    p.add_run(r)
}

/// `docx_rs::Paragraph::add_insert`: appends an insertion.
#[verifier::external_body]
pub(crate) fn paragraph_add_insert(p: DocxParagraph, n: DocxInsert) -> (out: DocxParagraph)
    requires
        paragraph_view(p) is Some,
        insert_view(n) is Some,
    ensures
        paragraph_view(out) == Some(
            paragraph_view(p).unwrap().with_child(ChildView::Insert(insert_view(n).unwrap())),
        ),
{
    p.add_insert(n)
}

/// `docx_rs::Paragraph::add_delete`: appends a deletion.
#[verifier::external_body]
pub(crate) fn paragraph_add_delete(p: DocxParagraph, n: DocxDelete) -> (out: DocxParagraph)
    requires
        paragraph_view(p) is Some,
        delete_view(n) is Some,
    ensures
        paragraph_view(out) == Some(
            paragraph_view(p).unwrap().with_child(ChildView::Delete(delete_view(n).unwrap())),
        ),
{
    p.add_delete(n)
}

/// `docx_rs::Paragraph::add_bookmark_start`: appends the start of the
/// bookmark `id`, with the name as given.
#[verifier::external_body]
pub(crate) fn paragraph_add_bookmark_start(
    p: DocxParagraph,
    id: usize,
    name: &str,
) -> (out: DocxParagraph)
    requires
        paragraph_view(p) is Some,
    ensures
        paragraph_view(out) == Some(
            paragraph_view(p).unwrap().with_child(ChildView::BookmarkStart { id, name: name@ }),
        ),
{
    p.add_bookmark_start(id, name)
}

/// `docx_rs::Paragraph::add_bookmark_end`: appends the end of the bookmark
/// `id`.
#[verifier::external_body]
pub(crate) fn paragraph_add_bookmark_end(p: DocxParagraph, id: usize) -> (out: DocxParagraph)
    requires
        paragraph_view(p) is Some,
    ensures
        paragraph_view(out) == Some(
            paragraph_view(p).unwrap().with_child(ChildView::BookmarkEnd { id }),
        ),
{
    p.add_bookmark_end(id)
}

/// `docx_rs::Paragraph::add_comment_start`: appends the start of a
/// comment's range, which holds the comment itself.
#[verifier::external_body]
pub(crate) fn paragraph_add_comment_start(
    p: DocxParagraph,
    c: DocxComment,
) -> (out: DocxParagraph)
    requires
        paragraph_view(p) is Some,
        comment_view(c) is Some,
    ensures
        paragraph_view(out) == Some(
            paragraph_view(p).unwrap().with_child(
                ChildView::CommentStart(comment_view(c).unwrap()),
            ),
        ),
{
    p.add_comment_start(c)
}

/// `docx_rs::Paragraph::add_comment_end`: appends the end of the range of
/// the comment `id`.
#[verifier::external_body]
pub(crate) fn paragraph_add_comment_end(p: DocxParagraph, id: usize) -> (out: DocxParagraph)
    requires
        paragraph_view(p) is Some,
    ensures
        paragraph_view(out) == Some(
            paragraph_view(p).unwrap().with_child(ChildView::CommentEnd { id }),
        ),
{
    p.add_comment_end(id)
}

/// `docx_rs::Paragraph::align`: sets the alignment.
#[verifier::external_body]
pub(crate) fn paragraph_align(p: DocxParagraph, alignment: AlignmentType) -> (out: DocxParagraph)
    requires
        paragraph_view(p) is Some,
    ensures
        paragraph_view(out) == Some(paragraph_view(p).unwrap().with_alignment(alignment)),
{
    p.align(
        match alignment {
            AlignmentType::Both => docx_rs::AlignmentType::Both,
            AlignmentType::Center => docx_rs::AlignmentType::Center,
            AlignmentType::Distribute => docx_rs::AlignmentType::Distribute,
            AlignmentType::Start => docx_rs::AlignmentType::Start,
            AlignmentType::End => docx_rs::AlignmentType::End,
            AlignmentType::Left => docx_rs::AlignmentType::Left,
            AlignmentType::Right => docx_rs::AlignmentType::Right,
            AlignmentType::Justified => docx_rs::AlignmentType::Justified,
        },
    )
}

/// `docx_rs::Paragraph::style`: sets the style id, which it keeps escaped
/// and without carriage returns.
#[verifier::external_body]
pub(crate) fn paragraph_style(p: DocxParagraph, style_id: &str) -> (out: DocxParagraph)
    requires
        paragraph_view(p) is Some,
    ensures
        paragraph_view(out) == Some(
            paragraph_view(p).unwrap().with_style(attr_written(style_id@)),
        ),
{
    p.style(style_id)
}

/// `docx_rs::Paragraph::indent`, with a left indent, the special indent if
/// there is one, and neither an end nor a count of characters.
#[verifier::external_body]
pub(crate) fn paragraph_indent(p: DocxParagraph, indent: Indent) -> (out: DocxParagraph)
    requires
        paragraph_view(p) is Some,
    ensures
        paragraph_view(out) == Some(paragraph_view(p).unwrap().with_indent(indent)),
{
    let special = match indent.special {
        Some(SpecialIndent { kind: SpecialIndentKind::FirstLine, size }) => Some(
            docx_rs::SpecialIndentType::FirstLine(size),
        ),
        Some(SpecialIndent { kind: SpecialIndentKind::Hanging, size }) => Some(
            docx_rs::SpecialIndentType::Hanging(size),
        ),
        None => None,
    };
    p.indent(Some(indent.left), special, None, None)
}

/// `docx_rs::Paragraph::numbering`: sets the numbering definition and the
/// level, both in one call.
#[verifier::external_body]
pub(crate) fn paragraph_numbering(p: DocxParagraph, numbering: Numbering) -> (out: DocxParagraph)
    requires
        paragraph_view(p) is Some,
    ensures
        paragraph_view(out) == Some(paragraph_view(p).unwrap().with_numbering(numbering)),
{
    p.numbering(
        docx_rs::NumberingId::new(numbering.id.id),
        docx_rs::IndentLevel::new(numbering.level.val),
    )
}

/// `docx_rs::Paragraph::size`: sets the font size of the paragraph's own
/// character formatting.
#[verifier::external_body]
pub(crate) fn paragraph_size(p: DocxParagraph, size: usize) -> (out: DocxParagraph)
    requires
        paragraph_view(p) is Some,
    ensures
        paragraph_view(out) == Some(paragraph_view(p).unwrap().with_size(size)),
{
    p.size(size)
}

/// `docx_rs::Paragraph::bold`: switches bold on in the paragraph's own
/// character formatting.
#[verifier::external_body]
pub(crate) fn paragraph_bold(p: DocxParagraph) -> (out: DocxParagraph)
    requires
        paragraph_view(p) is Some,
    ensures
        paragraph_view(out) == Some(paragraph_view(p).unwrap().with_bold()),
{
    p.bold()
}

/// `docx_rs::Paragraph::italic`: switches italic on in the paragraph's own
/// character formatting.
#[verifier::external_body]
pub(crate) fn paragraph_italic(p: DocxParagraph) -> (out: DocxParagraph)
    requires
        paragraph_view(p) is Some,
    ensures
        paragraph_view(out) == Some(paragraph_view(p).unwrap().with_italic()),
{
    p.italic()
}

/// `docx_rs::Paragraph::fonts`: sets the fonts of the paragraph's own
/// character formatting.
#[verifier::external_body]
pub(crate) fn paragraph_fonts(p: DocxParagraph, f: DocxFonts) -> (out: DocxParagraph)
    requires
        paragraph_view(p) is Some,
        fonts_view(f) is Some,
    ensures
        paragraph_view(out) == Some(paragraph_view(p).unwrap().with_fonts(fonts_view(f).unwrap())),
{
    p.fonts(f)
}

/// `docx_rs::Paragraph::line_spacing`: sets the line spacing.
#[verifier::external_body]
pub(crate) fn paragraph_line_spacing(p: DocxParagraph, s: DocxSpacing) -> (out: DocxParagraph)
    requires
        paragraph_view(p) is Some,
        spacing_view(s) is Some,
    ensures
        paragraph_view(out) == Some(
            paragraph_view(p).unwrap().with_line_spacing(spacing_view(s).unwrap()),
        ),
{
    p.line_spacing(s)
}

/// `docx_rs::Paragraph::keep_next`: sets the flag.
#[verifier::external_body]
pub(crate) fn paragraph_keep_next(p: DocxParagraph, v: bool) -> (out: DocxParagraph)
    requires
        paragraph_view(p) is Some,
    ensures
        paragraph_view(out) == Some(paragraph_view(p).unwrap().with_keep_next(v)),
{
    p.keep_next(v)
}

/// `docx_rs::Paragraph::keep_lines`: sets the flag.
#[verifier::external_body]
pub(crate) fn paragraph_keep_lines(p: DocxParagraph, v: bool) -> (out: DocxParagraph)
    requires
        paragraph_view(p) is Some,
    ensures
        paragraph_view(out) == Some(paragraph_view(p).unwrap().with_keep_lines(v)),
{
    p.keep_lines(v)
}

/// `docx_rs::Paragraph::page_break_before`: sets the flag.
#[verifier::external_body]
pub(crate) fn paragraph_page_break_before(p: DocxParagraph, v: bool) -> (out: DocxParagraph)
    requires
        paragraph_view(p) is Some,
    ensures
        paragraph_view(out) == Some(paragraph_view(p).unwrap().with_page_break_before(v)),
{
    p.page_break_before(v)
}

/// `docx_rs::Paragraph::widow_control`: sets the flag.
#[verifier::external_body]
pub(crate) fn paragraph_widow_control(p: DocxParagraph, v: bool) -> (out: DocxParagraph)
    requires
        paragraph_view(p) is Some,
    ensures
        paragraph_view(out) == Some(paragraph_view(p).unwrap().with_window_control(v)),
{
    p.widow_control(v)
}

/// `docx_rs::Docx::new`: a document without paragraphs.
#[verifier::external_body]
pub(crate) fn docx_new() -> (out: docx_rs::Docx)
    ensures
        docx_view(out) == Some(Seq::<ParagraphView>::empty()),
{
    docx_rs::Docx::new()
}

/// `docx_rs::Docx::add_paragraph`: appends a paragraph.
#[verifier::external_body]
pub(crate) fn docx_add_paragraph(d: docx_rs::Docx, p: DocxParagraph) -> (out: docx_rs::Docx)
    requires
        docx_view(d) is Some,
        paragraph_view(p) is Some,
    ensures
        docx_view(out) == Some(docx_view(d).unwrap().push(paragraph_view(p).unwrap())),
{
    d.add_paragraph(p)
}

/// `docx_rs::Docx::pack`, into a buffer in memory: the bytes of the
/// package, or `None` where `docx-rs` reports an error. `pack` numbers the
/// paragraphs anew from 1 and stamps every entry of the archive with one
/// fixed date, so without tracked changes, which it numbers from a counter
/// of the process, the outcome depends on the paragraphs alone.
#[verifier::external_body]
pub(crate) fn docx_pack(d: docx_rs::Docx) -> (out: Option<Vec<u8>>)
    requires
        docx_view(d) is Some,
    ensures
        free_of_changes(docx_view(d).unwrap()) ==> match out {
            Some(bytes) => packed(docx_view(d).unwrap()) == Some(bytes@),
            None => packed(docx_view(d).unwrap()) is None,
        },
{
    let mut buffer = std::io::Cursor::new(Vec::new());
    match d.pack(&mut buffer) {
        Ok(()) => Some(buffer.into_inner()),
        Err(_) => None,
    }
}

} // verus!
