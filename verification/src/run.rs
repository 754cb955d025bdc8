//! Runs: spans of text that share one set of character formatting.

use vstd::prelude::*;
use crate::native::{
    fonts_ascii, fonts_cs, fonts_east_asia, fonts_hi_ansi, fonts_new, fonts_view, run_add_break,
    run_add_text, run_bold, run_fonts, run_italic, run_new, run_size, run_view,
};

verus! {

/// A text as `docx-rs` keeps it: without line feeds and carriage returns.
pub open spec fn text_written(s: Seq<char>) -> Seq<char> {
    s.filter(|c: char| c != '\n' && c != '\r')
}

/// An attribute value as `docx-rs` keeps it: without carriage returns.
pub open spec fn attr_written(s: Seq<char>) -> Seq<char> {
    s.filter(|c: char| c != '\r')
}

/// `attr_written` of a value that may be missing.
pub open spec fn opt_attr_written(s: Option<Seq<char>>) -> Option<Seq<char>> {
    match s {
        Some(v) => Some(attr_written(v)),
        None => None,
    }
}

/// The characters of a string that may be missing.
pub open spec fn opt_chars(s: Option<String>) -> Option<Seq<char>> {
    match s {
        Some(v) => Some(v@),
        None => None,
    }
}

/// Kind of a break inside a run.
#[derive(Clone, Copy, Debug, PartialEq, Eq, Structural)]
pub enum BreakType {
    Page,
    Column,
    TextWrapping,
}

/// Font names of a run, one per script slot. A slot that is `None` is not
/// written.
#[derive(Clone, Debug, PartialEq, Eq)]
pub struct RunFonts {
    pub ascii: Option<String>,
    pub hi_ansi: Option<String>,
    pub east_asia: Option<String>,
    pub cs: Option<String>,
}

/// The font names of a `RunFonts`.
pub struct FontsView {
    pub ascii: Option<Seq<char>>,
    pub hi_ansi: Option<Seq<char>>,
    pub east_asia: Option<Seq<char>>,
    pub cs: Option<Seq<char>>,
}

impl FontsView {
    pub open spec fn empty() -> FontsView {
        FontsView { ascii: None, hi_ansi: None, east_asia: None, cs: None }
    }

    /// The fonts as `docx-rs` keeps them.
    pub open spec fn written(self) -> FontsView {
        FontsView {
            ascii: opt_attr_written(self.ascii),
            hi_ansi: opt_attr_written(self.hi_ansi),
            east_asia: opt_attr_written(self.east_asia),
            cs: opt_attr_written(self.cs),
        }
    }
}

impl View for RunFonts {
    type V = FontsView;

    open spec fn view(&self) -> FontsView {
        FontsView {
            ascii: opt_chars(self.ascii),
            hi_ansi: opt_chars(self.hi_ansi),
            east_asia: opt_chars(self.east_asia),
            cs: opt_chars(self.cs),
        }
    }
}

impl RunFonts {
    /// Fonts with no slot set.
    pub fn new() -> (out: RunFonts)
        ensures
            out@ == FontsView::empty(),
    {
        RunFonts { ascii: None, hi_ansi: None, east_asia: None, cs: None }
    }

    /// Sets the font for the first 128 code points.
    pub fn ascii(self, name: &str) -> (out: RunFonts)
        ensures
            out@ == (FontsView { ascii: Some(name@), ..self@ }),
    {
        RunFonts { ascii: Some(name.to_owned()), ..self }
    }

    /// Sets the high-ANSI font.
    pub fn hi_ansi(self, name: &str) -> (out: RunFonts)
        ensures
            out@ == (FontsView { hi_ansi: Some(name@), ..self@ }),
    {
        RunFonts { hi_ansi: Some(name.to_owned()), ..self }
    }

    /// Sets the East Asian font.
    pub fn east_asia(self, name: &str) -> (out: RunFonts)
        ensures
            out@ == (FontsView { east_asia: Some(name@), ..self@ }),
    {
        RunFonts { east_asia: Some(name.to_owned()), ..self }
    }

    /// Sets the complex-script font.
    pub fn cs(self, name: &str) -> (out: RunFonts)
        ensures
            out@ == (FontsView { cs: Some(name@), ..self@ }),
    {
        RunFonts { cs: Some(name.to_owned()), ..self }
    }

    /// The same fonts as a value of `docx-rs`.
    pub fn to_docx(&self) -> (out: crate::native::DocxFonts)
        ensures
            fonts_view(out) == Some(self@.written()),
    {
        let mut f = fonts_new();
        if let Some(name) = &self.ascii {
            f = fonts_ascii(f, name.as_str());
        }
        if let Some(name) = &self.hi_ansi {
            f = fonts_hi_ansi(f, name.as_str());
        }
        if let Some(name) = &self.east_asia {
            f = fonts_east_asia(f, name.as_str());
        }
        if let Some(name) = &self.cs {
            f = fonts_cs(f, name.as_str());
        }
        f
    }
}

/// Character formatting. `bold` and `italic` can be switched on and never
/// off again.
#[derive(Clone, Debug, PartialEq, Eq)]
pub struct RunProperty {
    pub bold: bool,
    pub italic: bool,
    pub size: Option<usize>,
    pub fonts: Option<RunFonts>,
}

/// The settings of a `RunProperty`.
pub struct RunPropertyView {
    pub bold: bool,
    pub italic: bool,
    pub size: Option<usize>,
    pub fonts: Option<FontsView>,
}

impl RunPropertyView {
    pub open spec fn empty() -> RunPropertyView {
        RunPropertyView { bold: false, italic: false, size: None, fonts: None }
    }

    pub open spec fn with_bold(self) -> RunPropertyView {
        RunPropertyView { bold: true, ..self }
    }

    pub open spec fn with_italic(self) -> RunPropertyView {
        RunPropertyView { italic: true, ..self }
    }

    pub open spec fn with_size(self, size: usize) -> RunPropertyView {
        RunPropertyView { size: Some(size), ..self }
    }

    pub open spec fn with_fonts(self, fonts: FontsView) -> RunPropertyView {
        RunPropertyView { fonts: Some(fonts), ..self }
    }

    /// The formatting as `docx-rs` keeps it.
    pub open spec fn written(self) -> RunPropertyView {
        RunPropertyView {
            fonts: match self.fonts {
                Some(f) => Some(f.written()),
                None => None,
            },
            ..self
        }
    }
}

impl View for RunProperty {
    type V = RunPropertyView;

    open spec fn view(&self) -> RunPropertyView {
        RunPropertyView {
            bold: self.bold,
            italic: self.italic,
            size: self.size,
            fonts: match self.fonts {
                Some(f) => Some(f@),
                None => None,
            },
        }
    }
}

impl RunProperty {
    /// Formatting with nothing set.
    pub fn new() -> (out: RunProperty)
        ensures
            out@ == RunPropertyView::empty(),
    {
        RunProperty { bold: false, italic: false, size: None, fonts: None }
    }

    pub fn bold(self) -> (out: RunProperty)
        ensures
            out@ == self@.with_bold(),
    {
        RunProperty { bold: true, ..self }
    }

    pub fn italic(self) -> (out: RunProperty)
        ensures
            out@ == self@.with_italic(),
    {
        RunProperty { italic: true, ..self }
    }

    /// Sets the font size, in half-points. Any value is taken as it is.
    pub fn size(self, size: usize) -> (out: RunProperty)
        ensures
            out@ == self@.with_size(size),
    {
        RunProperty { size: Some(size), ..self }
    }

    pub fn fonts(self, fonts: RunFonts) -> (out: RunProperty)
        ensures
            out@ == self@.with_fonts(fonts@),
    {
        RunProperty { fonts: Some(fonts), ..self }
    }
}

/// One piece of a run's content.
#[derive(Clone, Debug, PartialEq, Eq)]
pub enum RunChild {
    Text(String),
    Break(BreakType),
}

/// One piece of a run's content, as a mathematical value.
pub enum RunChildView {
    Text(Seq<char>),
    Break(BreakType),
}

impl RunChildView {
    /// The piece as `docx-rs` keeps it.
    pub open spec fn written(self) -> RunChildView {
        match self {
            RunChildView::Text(s) => RunChildView::Text(text_written(s)),
            RunChildView::Break(b) => RunChildView::Break(b),
        }
    }
}

impl View for RunChild {
    type V = RunChildView;

    open spec fn view(&self) -> RunChildView {
        match self {
            RunChild::Text(s) => RunChildView::Text(s@),
            RunChild::Break(b) => RunChildView::Break(*b),
        }
    }
}

/// A run: its content in order, and its formatting.
#[derive(Clone, Debug, PartialEq, Eq)]
pub struct Run {
    pub children: Vec<RunChild>,
    pub property: RunProperty,
}

/// The content and formatting of a `Run`.
pub struct RunView {
    pub children: Seq<RunChildView>,
    pub property: RunPropertyView,
}

impl RunView {
    pub open spec fn empty() -> RunView {
        RunView { children: Seq::empty(), property: RunPropertyView::empty() }
    }

    pub open spec fn with_child(self, child: RunChildView) -> RunView {
        RunView { children: self.children.push(child), ..self }
    }

    pub open spec fn with_property(self, property: RunPropertyView) -> RunView {
        RunView { property, ..self }
    }

    /// The run as `docx-rs` keeps it: every text without line feeds and
    /// carriage returns, every font name without carriage returns.
    pub open spec fn written(self) -> RunView {
        RunView {
            children: self.children.map_values(|c: RunChildView| c.written()),
            property: self.property.written(),
        }
    }
}

impl View for Run {
    type V = RunView;

    open spec fn view(&self) -> RunView {
        RunView {
            children: self.children@.map_values(|c: RunChild| c@),
            property: self.property@,
        }
    }
}

impl Run {
    /// A run without content or formatting.
    pub fn new() -> (out: Run)
        ensures
            out@ == RunView::empty(),
    {
        let out = Run { children: Vec::new(), property: RunProperty::new() };
        assert(out@.children =~= Seq::empty());
        out
    }

    /// Appends a text after the content so far. The text is kept as given.
    pub fn add_text(self, text: &str) -> (out: Run)
        ensures
            out@ == self@.with_child(RunChildView::Text(text@)),
    {
        let mut children = self.children;
        children.push(RunChild::Text(text.to_owned()));
        let out = Run { children, property: self.property };
        assert(out@.children =~= self@.children.push(RunChildView::Text(text@)));
        out
    }

    /// Appends a break after the content so far.
    pub fn add_break(self, break_type: BreakType) -> (out: Run)
        ensures
            out@ == self@.with_child(RunChildView::Break(break_type)),
    {
        let mut children = self.children;
        children.push(RunChild::Break(break_type));
        let out = Run { children, property: self.property };
        assert(out@.children =~= self@.children.push(RunChildView::Break(break_type)));
        out
    }

    pub fn bold(self) -> (out: Run)
        ensures
            out@ == self@.with_property(self@.property.with_bold()),
    {
        Run { children: self.children, property: self.property.bold() }
    }

    pub fn italic(self) -> (out: Run)
        ensures
            out@ == self@.with_property(self@.property.with_italic()),
    {
        Run { children: self.children, property: self.property.italic() }
    }

    /// Sets the font size, in half-points.
    pub fn size(self, size: usize) -> (out: Run)
        ensures
            out@ == self@.with_property(self@.property.with_size(size)),
    {
        Run { children: self.children, property: self.property.size(size) }
    }

    pub fn fonts(self, fonts: RunFonts) -> (out: Run)
        ensures
            out@ == self@.with_property(self@.property.with_fonts(fonts@)),
    {
        Run { children: self.children, property: self.property.fonts(fonts) }
    }

    /// The same run as a value of `docx-rs`: the content in order, then the
    /// formatting that is set.
    pub fn to_docx(&self) -> (out: crate::native::DocxRun)
        ensures
            run_view(out) == Some(self@.written()),
    {
        let mut r = run_new();
        let mut i: usize = 0;
        let ghost target = self@.written();
        assert(target.children.take(0) =~= Seq::empty());
        while i < self.children.len()
            invariant
                i <= self.children.len(),
                target == self@.written(),
                run_view(r) == Some(
                    RunView {
                        children: target.children.take(i as int),
                        property: RunPropertyView::empty(),
                    },
                ),
            decreases self.children.len() - i,
        {
            match &self.children[i] {
                RunChild::Text(s) => {
                    r = run_add_text(r, s.as_str());
                },
                RunChild::Break(b) => {
                    r = run_add_break(r, *b);
                },
            }
            assert(target.children.take(i + 1) =~= target.children.take(i as int).push(
                self.children[i as int]@.written(),
            ));
            i += 1;
        }
        assert(target.children.take(i as int) =~= target.children);
        if self.property.bold {
            r = run_bold(r);
        }
        if self.property.italic {
            r = run_italic(r);
        }
        if let Some(size) = self.property.size {
            r = run_size(r, size);
        }
        if let Some(fonts) = &self.property.fonts {
            r = run_fonts(r, fonts.to_docx());
        }
        r
    }
}

} // verus!
