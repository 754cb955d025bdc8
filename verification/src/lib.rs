//! Building word-processing paragraphs and packing them with `docx-rs`.
//!
//! Paragraphs, runs, tracked changes, bookmarks and comments are kept as
//! plain values. A [`Document`] gathers paragraphs in order, checks that
//! bookmark and comment markers pair up, hands the content to `docx-rs`
//! and returns the packed bytes.

mod comment;
mod content;
mod document;
mod format;
mod integrity;
mod laws;
mod native;
mod paragraph;
mod revision;
mod run;

pub use comment::Comment;
pub use content::{
    lemma_written_of_runs, written, ChildView, CommentView, ParagraphView, PropertyView,
};
pub use document::{
    finish, finished, lemma_written_free_of_changes, result_view, serialized, Document,
    SerializeError,
};
pub use format::{
    keep_line, line_written, special_indent, special_indent_of, AlignmentType, Indent,
    IndentLevel, LineSpacing, LineSpacingType, Numbering, NumberingId, SpecialIndent,
    SpecialIndentKind,
};
pub use integrity::{
    defect, document_markers, find_defect, first_unpaired, is_paired, lemma_first_unpaired,
    lemma_occurrences_grow, marker_of, markers_of, occurrences, partner, partner_of, well_paired,
    Marker, NodeKind, StructuralError,
};
pub use laws::{
    bold_twice_is_bold_once, children_keep_their_order, flag_twice_is_flag_once,
    lone_bookmark_start_is_refused, numbering_is_kept_whole, paired_document_is_packed,
    runs_keep_their_order, same_document_same_bytes, start_without_end_is_unpaired,
    unpaired_marker_is_reported, written_children_keep_markers, written_keeps_markers,
};
pub use native::{
    comment_of_runs, comment_view, delete_view, docx_view, fonts_view, free_of_changes,
    insert_view, is_change, packed, paragraph_view, run_view, spacing_view,
};
pub use paragraph::{create_paragraph, Paragraph, ParagraphChild, ParagraphProperty};
pub use revision::{run_views, ChangeView, Delete, Insert};
pub use run::{
    attr_written, opt_attr_written, opt_chars, text_written, BreakType, FontsView, Run, RunChild,
    RunChildView, RunFonts, RunProperty, RunPropertyView, RunView,
};
