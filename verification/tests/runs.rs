use docx_paragraph::{BreakType, Delete, Insert, Run, RunChild, RunFonts};

#[test]
fn new_run_is_empty() {
    let run = Run::new();
    assert!(run.children.is_empty());
    assert!(!run.property.bold && !run.property.italic);
    assert_eq!(run.property.size, None);
    assert_eq!(run.property.fonts, None);
    assert_eq!(run.to_docx(), docx_rs::Run::new());
}

#[test]
fn run_content_keeps_its_order() {
    let run = Run::new().add_text("a").add_break(BreakType::Page).add_text("b");
    assert_eq!(
        run.children,
        vec![
            RunChild::Text("a".to_string()),
            RunChild::Break(BreakType::Page),
            RunChild::Text("b".to_string()),
        ]
    );
    assert_eq!(
        run.to_docx(),
        docx_rs::Run::new().add_text("a").add_break(docx_rs::BreakType::Page).add_text("b")
    );
}

#[test]
fn run_text_is_handed_on() {
    assert_eq!(Run::new().add_text("Hello").to_docx(), docx_rs::Run::new().add_text("Hello"));
    assert_ne!(Run::new().add_text("Hello").to_docx(), docx_rs::Run::new());
}

#[test]
fn run_text_loses_line_feeds_and_carriage_returns() {
    assert_eq!(Run::new().add_text("a\nb\rc").to_docx(), docx_rs::Run::new().add_text("abc"));
    assert_eq!(Run::new().add_text("a\nb").to_docx(), Run::new().add_text("ab").to_docx());
}

#[test]
fn run_breaks_of_each_kind() {
    assert_eq!(
        Run::new().add_break(BreakType::Page).to_docx(),
        docx_rs::Run::new().add_break(docx_rs::BreakType::Page)
    );
    assert_eq!(
        Run::new().add_break(BreakType::Column).to_docx(),
        docx_rs::Run::new().add_break(docx_rs::BreakType::Column)
    );
    assert_eq!(
        Run::new().add_break(BreakType::TextWrapping).to_docx(),
        docx_rs::Run::new().add_break(docx_rs::BreakType::TextWrapping)
    );
}

#[test]
fn run_formatting_is_handed_on() {
    assert_eq!(Run::new().bold().to_docx(), docx_rs::Run::new().bold());
    assert_eq!(Run::new().italic().to_docx(), docx_rs::Run::new().italic());
    assert_eq!(Run::new().size(24).to_docx(), docx_rs::Run::new().size(24));
    assert_ne!(Run::new().bold().to_docx(), docx_rs::Run::new());
    assert_ne!(Run::new().italic().to_docx(), docx_rs::Run::new());
    assert_ne!(Run::new().size(24).to_docx(), docx_rs::Run::new());
    assert_eq!(
        Run::new().add_text("x").bold().italic().size(30).to_docx(),
        docx_rs::Run::new().add_text("x").bold().italic().size(30)
    );
}

#[test]
fn run_bold_twice_is_bold_once() {
    assert_eq!(Run::new().bold().bold(), Run::new().bold());
    assert_eq!(Run::new().italic().italic(), Run::new().italic());
}

#[test]
fn fonts_slots_are_handed_on() {
    assert_eq!(RunFonts::new().to_docx(), docx_rs::RunFonts::new());
    assert_eq!(RunFonts::new().ascii("Arial").to_docx(), docx_rs::RunFonts::new().ascii("Arial"));
    assert_eq!(
        RunFonts::new().hi_ansi("Arial").to_docx(),
        docx_rs::RunFonts::new().hi_ansi("Arial")
    );
    assert_eq!(
        RunFonts::new().east_asia("MS Mincho").to_docx(),
        docx_rs::RunFonts::new().east_asia("MS Mincho")
    );
    assert_eq!(RunFonts::new().cs("Noto").to_docx(), docx_rs::RunFonts::new().cs("Noto"));
    assert_ne!(RunFonts::new().ascii("Arial").to_docx(), docx_rs::RunFonts::new());
    assert_ne!(RunFonts::new().hi_ansi("Arial").to_docx(), docx_rs::RunFonts::new());
    assert_ne!(RunFonts::new().east_asia("Arial").to_docx(), docx_rs::RunFonts::new());
    assert_ne!(RunFonts::new().cs("Arial").to_docx(), docx_rs::RunFonts::new());
}

#[test]
fn run_fonts_are_handed_on() {
    let fonts = RunFonts::new().ascii("Arial").east_asia("MS Mincho");
    assert_eq!(
        Run::new().fonts(fonts).to_docx(),
        docx_rs::Run::new().fonts(docx_rs::RunFonts::new().ascii("Arial").east_asia("MS Mincho"))
    );
}

#[test]
fn insert_holds_runs_author_and_date() {
    let insert = Insert::new(Run::new().add_text("a"));
    assert_eq!(insert.author, "unnamed");
    assert_eq!(insert.date, "1970-01-01T00:00:00Z");
    assert_eq!(insert.to_docx(), docx_rs::Insert::new(docx_rs::Run::new().add_text("a")));
    assert_ne!(insert.to_docx(), docx_rs::Insert::new_with_empty());

    let insert = insert.add_run(Run::new().add_text("b")).author("bob").date("2024-01-02T03:04:05Z");
    assert_eq!(insert.runs.len(), 2);
    assert_eq!(
        insert.to_docx(),
        docx_rs::Insert::new(docx_rs::Run::new().add_text("a"))
            .add_run(docx_rs::Run::new().add_text("b"))
            .author("bob")
            .date("2024-01-02T03:04:05Z")
    );
}

#[test]
fn insert_author_and_date_each_change_it() {
    let base = docx_rs::Insert::new(docx_rs::Run::new());
    assert_ne!(Insert::new(Run::new()).author("bob").to_docx(), base);
    assert_ne!(Insert::new(Run::new()).date("2024-01-02T03:04:05Z").to_docx(), base);
    assert_eq!(Insert::new(Run::new()).author("bob").to_docx(), base.clone().author("bob"));
    assert_eq!(
        Insert::new(Run::new()).date("2024-01-02T03:04:05Z").to_docx(),
        base.date("2024-01-02T03:04:05Z")
    );
}

#[test]
fn delete_holds_runs_author_and_date() {
    let delete = Delete::new(Run::new().add_text("a"));
    assert_eq!(delete.author, "unnamed");
    assert_eq!(delete.date, "1970-01-01T00:00:00Z");
    assert_eq!(delete.to_docx(), docx_rs::Delete::new().add_run(docx_rs::Run::new().add_text("a")));
    assert_ne!(delete.to_docx(), docx_rs::Delete::new());

    let delete = delete.add_run(Run::new().add_text("b")).author("bob").date("2024-01-02T03:04:05Z");
    assert_eq!(delete.runs.len(), 2);
    assert_eq!(
        delete.to_docx(),
        docx_rs::Delete::new()
            .add_run(docx_rs::Run::new().add_text("a"))
            .add_run(docx_rs::Run::new().add_text("b"))
            .author("bob")
            .date("2024-01-02T03:04:05Z")
    );
}

#[test]
fn delete_author_and_date_each_change_it() {
    let base = docx_rs::Delete::new().add_run(docx_rs::Run::new());
    assert_ne!(Delete::new(Run::new()).author("bob").to_docx(), base);
    assert_ne!(Delete::new(Run::new()).date("2024-01-02T03:04:05Z").to_docx(), base);
    assert_eq!(Delete::new(Run::new()).author("bob").to_docx(), base.clone().author("bob"));
    assert_eq!(
        Delete::new(Run::new()).date("2024-01-02T03:04:05Z").to_docx(),
        base.date("2024-01-02T03:04:05Z")
    );
}
