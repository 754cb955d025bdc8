//! Paragraphs: an ordered sequence of children, and formatting.

use vstd::prelude::*;
use crate::comment::Comment;
use crate::content::{ChildView, ParagraphView, PropertyView};
use crate::format::{
    keep_line, special_indent, special_indent_of, AlignmentType, Indent,
    IndentLevel, LineSpacing, LineSpacingType, Numbering, NumberingId, SpecialIndentKind,
};
use crate::native::{
    paragraph_add_bookmark_end, paragraph_add_bookmark_start, paragraph_add_comment_end,
    paragraph_add_comment_start, paragraph_add_delete, paragraph_add_insert, paragraph_add_run,
    paragraph_align, paragraph_bold, paragraph_fonts, paragraph_indent, paragraph_italic,
    paragraph_keep_lines, paragraph_keep_next, paragraph_line_spacing, paragraph_new,
    paragraph_numbering, paragraph_page_break_before, paragraph_size, paragraph_style,
    paragraph_view, paragraph_widow_control, spacing_after, spacing_before, spacing_line,
    spacing_new, spacing_rule, spacing_view,
};
use crate::revision::{Delete, Insert};
use crate::run::{opt_chars, Run, RunFonts, RunProperty};

verus! {

/// A child of a paragraph.
#[derive(Clone, Debug, PartialEq, Eq)]
pub enum ParagraphChild {
    Run(Run),
    Insert(Insert),
    Delete(Delete),
    BookmarkStart { id: usize, name: String },
    BookmarkEnd { id: usize },
    CommentStart(Comment),
    CommentEnd { id: usize },
}

impl View for ParagraphChild {
    type V = ChildView;

    open spec fn view(&self) -> ChildView {
        match self {
            ParagraphChild::Run(r) => ChildView::Run(r@),
            ParagraphChild::Insert(n) => ChildView::Insert(n@),
            ParagraphChild::Delete(n) => ChildView::Delete(n@),
            ParagraphChild::BookmarkStart { id, name } => ChildView::BookmarkStart {
                id: *id,
                name: name@,
            },
            ParagraphChild::BookmarkEnd { id } => ChildView::BookmarkEnd { id: *id },
            ParagraphChild::CommentStart(c) => ChildView::CommentStart(c@),
            ParagraphChild::CommentEnd { id } => ChildView::CommentEnd { id: *id },
        }
    }
}

/// The formatting of a paragraph. What is `None` was never set.
#[derive(Clone, Debug, PartialEq, Eq)]
pub struct ParagraphProperty {
    pub run_property: RunProperty,
    pub style: Option<String>,
    pub numbering: Option<Numbering>,
    pub alignment: Option<AlignmentType>,
    pub indent: Option<Indent>,
    pub line_spacing: Option<LineSpacing>,
    pub keep_next: Option<bool>,
    pub keep_lines: Option<bool>,
    pub page_break_before: Option<bool>,
    pub window_control: Option<bool>,
}

impl View for ParagraphProperty {
    type V = PropertyView;

    open spec fn view(&self) -> PropertyView {
        PropertyView {
            run_property: self.run_property@,
            style: opt_chars(self.style),
            numbering: self.numbering,
            alignment: self.alignment,
            indent: self.indent,
            line_spacing: self.line_spacing,
            keep_next: self.keep_next,
            keep_lines: self.keep_lines,
            page_break_before: self.page_break_before,
            window_control: self.window_control,
        }
    }
}

impl ParagraphProperty {
    /// Formatting with nothing set.
    pub fn new() -> (out: ParagraphProperty)
        ensures
            out@ == PropertyView::empty(),
    {
        ParagraphProperty {
            run_property: RunProperty::new(),
            style: None,
            numbering: None,
            alignment: None,
            indent: None,
            line_spacing: None,
            keep_next: None,
            keep_lines: None,
            page_break_before: None,
            window_control: None,
        }
    }
}

/// A paragraph. Every method that changes it takes the paragraph and gives
/// it back, so that calls can be chained.
#[derive(Clone, Debug, PartialEq, Eq)]
pub struct Paragraph {
    pub children: Vec<ParagraphChild>,
    pub property: ParagraphProperty,
}

impl View for Paragraph {
    type V = ParagraphView;

    open spec fn view(&self) -> ParagraphView {
        ParagraphView {
            children: self.children@.map_values(|c: ParagraphChild| c@),
            property: self.property@,
        }
    }
}

/// A paragraph without children or formatting.
pub fn create_paragraph() -> (out: Paragraph)
    ensures
        out@ == ParagraphView::empty(),
{
    let out = Paragraph { children: Vec::new(), property: ParagraphProperty::new() };
    assert(out@.children =~= Seq::empty());
    out
}

/// The line spacing as a value of `docx-rs`, with the fields that are set.
/// The space between lines is brought into the signed range first.
fn spacing_to_docx(spacing: LineSpacing) -> (out: crate::native::DocxSpacing)
    ensures
        spacing_view(out) == Some(spacing.written()),
{
    let mut s = spacing_new();
    if let Some(before) = spacing.before {
        s = spacing_before(s, before);
    }
    if let Some(after) = spacing.after {
        s = spacing_after(s, after);
    }
    if let Some(line) = spacing.line {
        s = spacing_line(s, keep_line(line));
    }
    if let Some(rule) = spacing.spacing_type {
        s = spacing_rule(s, rule);
    }
    s
}

/// Applies the character formatting that is set to a paragraph of `docx-rs`
/// that has none yet.
fn character_format_to_docx(
    p: crate::native::DocxParagraph,
    format: &RunProperty,
) -> (out: crate::native::DocxParagraph)
    requires
        paragraph_view(p) is Some,
        paragraph_view(p).unwrap().property == PropertyView::empty(),
    ensures
        paragraph_view(out) == Some(
            paragraph_view(p).unwrap().with_run_property(format@.written()),
        ),
{
    let mut p = p;
    if format.bold {
        p = paragraph_bold(p);
    }
    if format.italic {
        p = paragraph_italic(p);
    }
    if let Some(size) = format.size {
        p = paragraph_size(p, size);
    }
    if let Some(fonts) = &format.fonts {
        p = paragraph_fonts(p, fonts.to_docx());
    }
    p
}

/// Applies style, numbering, alignment, indentation and line spacing, as
/// far as they are set, to a paragraph of `docx-rs` that has none of them
/// yet.
fn layout_to_docx(
    p: crate::native::DocxParagraph,
    property: &ParagraphProperty,
) -> (out: crate::native::DocxParagraph)
    requires
        paragraph_view(p) is Some,
        paragraph_view(p).unwrap().property == (PropertyView {
            run_property: property@.written().run_property,
            ..PropertyView::empty()
        }),
    ensures
        paragraph_view(out) == Some(
            ParagraphView {
                children: paragraph_view(p).unwrap().children,
                property: PropertyView {
                    keep_next: None,
                    keep_lines: None,
                    page_break_before: None,
                    window_control: None,
                    ..property@.written()
                },
            },
        ),
{
    let mut p = p;
    if let Some(style_id) = &property.style {
        p = paragraph_style(p, style_id.as_str());
    }
    if let Some(numbering) = property.numbering {
        p = paragraph_numbering(p, numbering);
    }
    if let Some(alignment) = property.alignment {
        p = paragraph_align(p, alignment);
    }
    if let Some(indent) = property.indent {
        p = paragraph_indent(p, indent);
    }
    if let Some(spacing) = property.line_spacing {
        p = paragraph_line_spacing(p, spacing_to_docx(spacing));
    }
    p
}

/// Applies the four flags, as far as they are set, to a paragraph of
/// `docx-rs` that has none of them yet.
fn flags_to_docx(
    p: crate::native::DocxParagraph,
    property: &ParagraphProperty,
) -> (out: crate::native::DocxParagraph)
    requires
        paragraph_view(p) is Some,
        paragraph_view(p).unwrap().property == (PropertyView {
            keep_next: None,
            keep_lines: None,
            page_break_before: None,
            window_control: None,
            ..property@.written()
        }),
    ensures
        paragraph_view(out) == Some(
            ParagraphView {
                children: paragraph_view(p).unwrap().children,
                property: property@.written(),
            },
        ),
{
    let mut p = p;
    if let Some(v) = property.keep_next {
        p = paragraph_keep_next(p, v);
    }
    if let Some(v) = property.keep_lines {
        p = paragraph_keep_lines(p, v);
    }
    if let Some(v) = property.page_break_before {
        p = paragraph_page_break_before(p, v);
    }
    if let Some(v) = property.window_control {
        p = paragraph_widow_control(p, v);
    }
    p
}

impl Paragraph {
    /// Appends `child` after the children so far.
    fn push(self, child: ParagraphChild) -> (out: Paragraph)
        ensures
            out@ == self@.with_child(child@),
    {
        let mut children = self.children;
        children.push(child);
        let out = Paragraph { children, property: self.property };
        assert(out@.children =~= self@.children.push(child@));
        out
    }

    /// Appends a run after the children so far.
    pub fn add_run(self, run: Run) -> (out: Paragraph)
        ensures
            out@ == self@.with_child(ChildView::Run(run@)),
    {
        self.push(ParagraphChild::Run(run))
    }

    /// Appends an insertion after the children so far.
    pub fn add_insert(self, i: Insert) -> (out: Paragraph)
        ensures
            out@ == self@.with_child(ChildView::Insert(i@)),
    {
        self.push(ParagraphChild::Insert(i))
    }

    /// Appends a deletion after the children so far.
    pub fn add_delete(self, d: Delete) -> (out: Paragraph)
        ensures
            out@ == self@.with_child(ChildView::Delete(d@)),
    {
        self.push(ParagraphChild::Delete(d))
    }

    /// Appends the start of the bookmark `id`. Whether the id is already in
    /// use, or ever ended, is not looked at here.
    pub fn add_bookmark_start(self, id: usize, name: &str) -> (out: Paragraph)
        ensures
            out@ == self@.with_child(ChildView::BookmarkStart { id, name: name@ }),
    {
        self.push(ParagraphChild::BookmarkStart { id, name: name.to_owned() })
    }

    /// Appends the end of the bookmark `id`.
    pub fn add_bookmark_end(self, id: usize) -> (out: Paragraph)
        ensures
            out@ == self@.with_child(ChildView::BookmarkEnd { id }),
    {
        self.push(ParagraphChild::BookmarkEnd { id })
    }

    /// Appends the start of a comment's range. The comment itself moves
    /// into the paragraph.
    pub fn add_comment_start(self, comment: Comment) -> (out: Paragraph)
        ensures
            out@ == self@.with_child(ChildView::CommentStart(comment@)),
    {
        self.push(ParagraphChild::CommentStart(comment))
    }

    /// Appends the end of the range of the comment `id`.
    pub fn add_comment_end(self, id: usize) -> (out: Paragraph)
        ensures
            out@ == self@.with_child(ChildView::CommentEnd { id }),
    {
        self.push(ParagraphChild::CommentEnd { id })
    }

    /// Sets the alignment.
    pub fn align(self, alignment_type: AlignmentType) -> (out: Paragraph)
        ensures
            out@ == self@.with_alignment(alignment_type),
    {
        let property = ParagraphProperty { alignment: Some(alignment_type), ..self.property };
        Paragraph { children: self.children, property }
    }

    /// Sets the style id. Any string is taken, and kept as given.
    pub fn style(self, style_id: &str) -> (out: Paragraph)
        ensures
            out@ == self@.with_style(style_id@),
    {
        let property = ParagraphProperty { style: Some(style_id.to_owned()), ..self.property };
        Paragraph { children: self.children, property }
    }

    /// Sets the indentation: the left indent, and the special indent that
    /// the kind and the size stand for together. A kind without a size gets
    /// size 0; a size without a kind is kept as a first-line indent.
    pub fn indent(
        self,
        left: i32,
        special_indent_kind: Option<SpecialIndentKind>,
        special_indent_size: Option<i32>,
    ) -> (out: Paragraph)
        ensures
            out@ == self@.with_indent(
                Indent {
                    left,
                    special: special_indent_of(special_indent_kind, special_indent_size),
                },
            ),
    {
        let special = special_indent(special_indent_kind, special_indent_size);
        let property = ParagraphProperty { indent: Some(Indent { left, special }), ..self.property };
        Paragraph { children: self.children, property }
    }

    /// Sets the numbering reference: the definition `id` and the level,
    /// kept together.
    pub fn numbering(self, id: usize, level: usize) -> (out: Paragraph)
        ensures
            out@ == self@.with_numbering(
                Numbering { id: NumberingId { id }, level: IndentLevel { val: level } },
            ),
    {
        let numbering = Numbering { id: NumberingId::new(id), level: IndentLevel::new(level) };
        let property = ParagraphProperty { numbering: Some(numbering), ..self.property };
        Paragraph { children: self.children, property }
    }

    /// Sets the font size of the paragraph's own character formatting, in
    /// half-points. Any value is taken as it is.
    pub fn size(self, size: usize) -> (out: Paragraph)
        ensures
            out@ == self@.with_size(size),
    {
        let property = ParagraphProperty {
            run_property: self.property.run_property.size(size),
            style: self.property.style,
            ..self.property
        };
        Paragraph { children: self.children, property }
    }

    /// Switches bold on in the paragraph's own character formatting.
    pub fn bold(self) -> (out: Paragraph)
        ensures
            out@ == self@.with_bold(),
    {
        let property = ParagraphProperty {
            run_property: self.property.run_property.bold(),
            style: self.property.style,
            ..self.property
        };
        Paragraph { children: self.children, property }
    }

    /// Switches italic on in the paragraph's own character formatting.
    pub fn italic(self) -> (out: Paragraph)
        ensures
            out@ == self@.with_italic(),
    {
        let property = ParagraphProperty {
            run_property: self.property.run_property.italic(),
            style: self.property.style,
            ..self.property
        };
        Paragraph { children: self.children, property }
    }

    /// Sets the fonts of the paragraph's own character formatting.
    pub fn fonts(self, f: RunFonts) -> (out: Paragraph)
        ensures
            out@ == self@.with_fonts(f@),
    {
        let property = ParagraphProperty {
            run_property: self.property.run_property.fonts(f),
            style: self.property.style,
            ..self.property
        };
        Paragraph { children: self.children, property }
    }

    /// Sets the line spacing to the four values as given, each of which may
    /// be missing. Nothing is filled in and nothing is changed.
    pub fn line_spacing(
        self,
        before: Option<u32>,
        after: Option<u32>,
        line: Option<u32>,
        spacing_type: Option<LineSpacingType>,
    ) -> (out: Paragraph)
        ensures
            out@ == self@.with_line_spacing(LineSpacing { before, after, line, spacing_type }),
    {
        let spacing = LineSpacing { before, after, line, spacing_type };
        let property = ParagraphProperty { line_spacing: Some(spacing), ..self.property };
        Paragraph { children: self.children, property }
    }

    /// Sets whether the paragraph stays on one page with the next.
    pub fn keep_next(self, v: bool) -> (out: Paragraph)
        ensures
            out@ == self@.with_keep_next(v),
    {
        let property = ParagraphProperty { keep_next: Some(v), ..self.property };
        Paragraph { children: self.children, property }
    }

    /// Sets whether the lines of the paragraph stay on one page.
    pub fn keep_lines(self, v: bool) -> (out: Paragraph)
        ensures
            out@ == self@.with_keep_lines(v),
    {
        let property = ParagraphProperty { keep_lines: Some(v), ..self.property };
        Paragraph { children: self.children, property }
    }

    /// Sets whether a page break comes before the paragraph.
    pub fn page_break_before(self, v: bool) -> (out: Paragraph)
        ensures
            out@ == self@.with_page_break_before(v),
    {
        let property = ParagraphProperty { page_break_before: Some(v), ..self.property };
        Paragraph { children: self.children, property }
    }

    /// Sets whether single lines at the top or bottom of a page are
    /// avoided.
    pub fn window_control(self, v: bool) -> (out: Paragraph)
        ensures
            out@ == self@.with_window_control(v),
    {
        let property = ParagraphProperty { window_control: Some(v), ..self.property };
        Paragraph { children: self.children, property }
    }

    /// The children in order as a paragraph of `docx-rs` without
    /// formatting.
    fn children_to_docx(&self) -> (out: crate::native::DocxParagraph)
        ensures
            paragraph_view(out) == Some(
                ParagraphView {
                    children: self@.written().children,
                    property: PropertyView::empty(),
                },
            ),
    {
        let mut p = paragraph_new();
        let mut i: usize = 0;
        let ghost target = self@.written().children;
        assert(target.take(0) =~= Seq::empty());
        while i < self.children.len()
            invariant
                i <= self.children.len(),
                target == self@.written().children,
                paragraph_view(p) == Some(
                    ParagraphView {
                        children: target.take(i as int),
                        property: PropertyView::empty(),
                    },
                ),
            decreases self.children.len() - i,
        {
            match &self.children[i] {
                ParagraphChild::Run(r) => {
                    p = paragraph_add_run(p, r.to_docx());
                },
                ParagraphChild::Insert(n) => {
                    p = paragraph_add_insert(p, n.to_docx());
                },
                ParagraphChild::Delete(n) => {
                    p = paragraph_add_delete(p, n.to_docx());
                },
                ParagraphChild::BookmarkStart { id, name } => {
                    p = paragraph_add_bookmark_start(p, *id, name.as_str());
                },
                ParagraphChild::BookmarkEnd { id } => {
                    p = paragraph_add_bookmark_end(p, *id);
                },
                ParagraphChild::CommentStart(c) => {
                    p = paragraph_add_comment_start(p, c.to_docx());
                },
                ParagraphChild::CommentEnd { id } => {
                    p = paragraph_add_comment_end(p, *id);
                },
            }
            assert(target.take(i + 1) =~= target.take(i as int).push(
                self.children[i as int]@.written(),
            ));
            i += 1;
        }
        assert(target.take(i as int) =~= target);
        p
    }

    /// The same paragraph as a value of `docx-rs`: the children in order,
    /// then each part of the formatting that is set.
    pub fn to_docx(&self) -> (out: crate::native::DocxParagraph)
        ensures
            paragraph_view(out) == Some(self@.written()),
    {
        let p = self.children_to_docx();
        let p = character_format_to_docx(p, &self.property.run_property);
        let p = layout_to_docx(p, &self.property);
        flags_to_docx(p, &self.property)
    }

    /// Gives the paragraph up as a value of `docx-rs`.
    pub fn take(self) -> (out: crate::native::DocxParagraph)
        ensures
            paragraph_view(out) == Some(self@.written()),
    {
        self.to_docx()
    }
}

} // verus!
