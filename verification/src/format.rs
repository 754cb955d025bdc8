//! Formatting attributes of a paragraph: alignment, indentation, numbering
//! and line spacing.

use vstd::prelude::*;

verus! {

/// Horizontal alignment of a paragraph.
#[derive(Clone, Copy, Debug, PartialEq, Eq, Structural)]
pub enum AlignmentType {
    Both,
    Center,
    Distribute,
    Start,
    End,
    Left,
    Right,
    Justified,
}

/// Which line of a paragraph a special indent moves.
#[derive(Clone, Copy, Debug, PartialEq, Eq, Structural)]
pub enum SpecialIndentKind {
    FirstLine,
    Hanging,
}

/// A special indent: its kind together with its size. The two are only
/// ever stored as a pair.
#[derive(Clone, Copy, Debug, PartialEq, Eq, Structural)]
pub struct SpecialIndent {
    pub kind: SpecialIndentKind,
    pub size: i32,
}

/// Indentation of a paragraph.
#[derive(Clone, Copy, Debug, PartialEq, Eq)]
pub struct Indent {
    pub left: i32,
    pub special: Option<SpecialIndent>,
}

/// How the `line` value of a line spacing is read.
#[derive(Clone, Copy, Debug, PartialEq, Eq, Structural)]
pub enum LineSpacingType {
    Auto,
    AtLeast,
    Exact,
}

/// Line spacing of a paragraph. Each field may be set or left out on its
/// own, and is kept as given.
#[derive(Clone, Copy, Debug, PartialEq, Eq)]
pub struct LineSpacing {
    pub before: Option<u32>,
    pub after: Option<u32>,
    pub line: Option<u32>,
    pub spacing_type: Option<LineSpacingType>,
}

/// Identifier of a numbering definition.
#[derive(Clone, Copy, Debug, PartialEq, Eq, Structural)]
pub struct NumberingId {
    pub id: usize,
}

/// Level of a paragraph within a numbering definition.
#[derive(Clone, Copy, Debug, PartialEq, Eq, Structural)]
pub struct IndentLevel {
    pub val: usize,
}

/// A numbering reference: the definition and the level, always together.
#[derive(Clone, Copy, Debug, PartialEq, Eq, Structural)]
pub struct Numbering {
    pub id: NumberingId,
    pub level: IndentLevel,
}

impl NumberingId {
    pub fn new(id: usize) -> (out: NumberingId)
        ensures
            out.id == id,
    {
        NumberingId { id }
    }
}

impl IndentLevel {
    pub fn new(val: usize) -> (out: IndentLevel)
        ensures
            out.val == val,
    {
        IndentLevel { val }
    }
}

/// A space between lines as `docx-rs` keeps it. It holds a signed value,
/// so one above `i32::MAX` is handed on as `i32::MAX`; every other value
/// is handed on as it is.
pub open spec fn line_written(line: u32) -> u32 {
    if line > i32::MAX {
        i32::MAX as u32
    } else {
        line
    }
}

impl LineSpacing {
    /// The line spacing as `docx-rs` keeps it: the space between lines
    /// within the signed range, the other three fields as they are.
    pub open spec fn written(self) -> LineSpacing {
        LineSpacing {
            line: match self.line {
                Some(v) => Some(line_written(v)),
                None => None,
            },
            ..self
        }
    }
}

/// Brings a space between lines into the range that `docx-rs` takes.
pub fn keep_line(line: u32) -> (out: i32)
    ensures
        out == line_written(line),
{
    if line > 2147483647u32 {
        i32::MAX
    } else {
        line as i32
    }
}

/// The special indent that a kind and a size, each possibly missing, stand
/// for. A kind without a size gets size 0. A size without a kind is kept as
/// a first-line indent of that size. With neither there is none.
pub open spec fn special_indent_of(
    kind: Option<SpecialIndentKind>,
    size: Option<i32>,
) -> Option<SpecialIndent> {
    match (kind, size) {
        (Some(k), Some(s)) => Some(SpecialIndent { kind: k, size: s }),
        (Some(k), None) => Some(SpecialIndent { kind: k, size: 0 }),
        (None, Some(s)) => Some(SpecialIndent { kind: SpecialIndentKind::FirstLine, size: s }),
        (None, None) => None,
    }
}

/// Combines an optional kind and an optional size into one special indent,
/// so that a lone value is never dropped.
pub fn special_indent(kind: Option<SpecialIndentKind>, size: Option<i32>) -> (out: Option<
    SpecialIndent,
>)
    ensures
        out == special_indent_of(kind, size),
{
    match kind {
        Some(k) => {
            let s: i32 = match size {
                Some(v) => v,
                None => 0,
            };
            Some(SpecialIndent { kind: k, size: s })
        },
        None => match size {
            Some(s) => Some(SpecialIndent { kind: SpecialIndentKind::FirstLine, size: s }),
            None => None,
        },
    }
}

} // verus!
