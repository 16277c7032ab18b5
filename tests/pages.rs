use zola_chrono::date::CalendarDate;
use zola_chrono::error::ProcessError;
use zola_chrono::file_data::{process_file, should_skip_file};
use zola_chrono::front_matter::{render_front_matter, split_front_matter};
use zola_chrono::FileData;

fn fixed_today() -> CalendarDate {
    CalendarDate { year: 2024, month: 6, day: 15 }
}

fn d(year: u16, month: u8, day: u8) -> CalendarDate {
    CalendarDate { year, month, day }
}

#[test]
fn splits_front_matter_and_body() {
    let (fm, body) = split_front_matter("+++\ntitle = \"a\"\n+++\n\nHello\n").unwrap();
    assert_eq!(fm, "\ntitle = \"a\"\n");
    assert_eq!(body, "Hello\n");
}

#[test]
fn split_skips_leading_whitespace_and_accepts_crlf() {
    let (fm, body) = split_front_matter("  \r\n+++\r\nx = 1\r\n+++\r\nbody").unwrap();
    assert_eq!(fm, "\r\nx = 1\r\n");
    assert_eq!(body, "body");
}

#[test]
fn split_without_body() {
    let (fm, body) = split_front_matter("+++\nx = 1\n+++").unwrap();
    assert_eq!(fm, "\nx = 1\n");
    assert_eq!(body, "");
    let (_, body) = split_front_matter("+++\nx = 1\n+++  \n\n").unwrap();
    assert_eq!(body, "");
}

#[test]
fn split_keeps_body_indentation() {
    let (_, body) = split_front_matter("+++\nx = 1\n+++ \n  indented").unwrap();
    assert_eq!(body, "  indented");
}

#[test]
fn split_passes_over_markers_inside_values() {
    let (fm, body) = split_front_matter("+++\nx = \"+++a\"\n+++\nrest").unwrap();
    assert_eq!(fm, "\nx = \"+++a\"\n");
    assert_eq!(body, "rest");
}

#[test]
fn split_refuses_pages_without_block() {
    assert_eq!(split_front_matter(""), None);
    assert_eq!(split_front_matter("no front matter"), None);
    assert_eq!(split_front_matter("+++ x = 1\n+++\n"), None);
    assert_eq!(split_front_matter("+++\nx = 1\n"), None);
    assert_eq!(split_front_matter("---\nx: 1\n---\n"), None);
}

#[test]
fn render_puts_a_blank_line_before_the_body() {
    assert_eq!(render_front_matter("\nx = 1\n", "Hello\n"), "+++\nx = 1\n+++\n\nHello\n");
    assert_eq!(render_front_matter("\nx = 1\n", ""), "+++\nx = 1\n+++\n");
}

#[test]
fn new_from_text_reports_missing_block() {
    assert_eq!(FileData::new_from_text("just text").err(), Some(ProcessError::NoFrontMatter));
    let data = FileData::new_from_text("+++\nx = 1\n+++\nbody").unwrap();
    assert!(!data.is_changed());
    assert_eq!(data.front_matter(), "\nx = 1\n");
    assert_eq!(data.content(), "body");
}

#[test]
fn update_adds_date_to_new_page() {
    let mut data = FileData::new_from_text("+++\ntitle = \"a\"\n+++\nbody").unwrap();
    data.update_front_matter(None, fixed_today()).unwrap();
    assert!(data.is_changed());
    assert_eq!(data.front_matter(), "\ntitle = \"a\"\ndate = 2024-06-15\n");
    assert_eq!(data.render().unwrap(), "+++\ntitle = \"a\"\ndate = 2024-06-15\n+++\n\nbody");
}

#[test]
fn update_leaves_correct_page_alone() {
    let text = "+++\ntitle = \"a\"\ndate = 2002-01-01\n+++\nbody";
    let mut data = FileData::new_from_text(text).unwrap();
    data.update_front_matter(Some(d(2002, 1, 1)), fixed_today()).unwrap();
    assert!(!data.is_changed());
    assert_eq!(data.front_matter(), "\ntitle = \"a\"\ndate = 2002-01-01\n");
    assert_eq!(data.render(), Err(ProcessError::NotChanged));
}

#[test]
fn update_sets_updated_after_later_edit() {
    let mut data = FileData::new_from_text("+++\ndate = 2001-01-01\n+++\n").unwrap();
    data.update_front_matter(Some(d(2002, 1, 1)), fixed_today()).unwrap();
    assert!(data.is_changed());
    assert_eq!(data.front_matter(), "\ndate = 2001-01-01\nupdated = 2024-06-15\n");
}

#[test]
fn update_replaces_string_date() {
    let mut data = FileData::new_from_text("+++\ndate = \"yesterday\"\n+++\n").unwrap();
    data.update_front_matter(None, fixed_today()).unwrap();
    assert_eq!(data.front_matter(), "\ndate = 2024-06-15\n");
}

#[test]
fn update_removes_needless_updated() {
    let text = "+++\ndate = 2002-01-01\nupdated = 2001-01-01\ntags = [\"x\"]\n+++\n";
    let mut data = FileData::new_from_text(text).unwrap();
    data.update_front_matter(Some(d(2002, 1, 1)), d(2002, 1, 1)).unwrap();
    assert!(data.is_changed());
    assert_eq!(data.front_matter(), "\ndate = 2002-01-01\ntags = [\"x\"]\n");
}

#[test]
fn update_keeps_time_of_unchanged_date() {
    let text = "+++\ndate = 2001-01-01T10:00:00Z\n+++\n";
    let mut data = FileData::new_from_text(text).unwrap();
    data.update_front_matter(Some(d(2002, 1, 1)), fixed_today()).unwrap();
    assert_eq!(
        data.front_matter(),
        "\ndate = 2001-01-01T10:00:00Z\nupdated = 2024-06-15\n"
    );
}

#[test]
fn update_refuses_invalid_toml() {
    let mut data = FileData::new_from_text("+++\ndate = = 1\n+++\n").unwrap();
    assert_eq!(data.update_front_matter(None, fixed_today()), Err(ProcessError::InvalidToml));
    assert!(!data.is_changed());
}

#[test]
fn update_refuses_future_last_edit() {
    let mut data = FileData::new_from_text("+++\ndate = 2001-01-01\n+++\n").unwrap();
    let r = data.update_front_matter(Some(d(4000, 1, 1)), fixed_today());
    assert_eq!(
        r,
        Err(ProcessError::LastEditInFuture { last_edit: d(4000, 1, 1), today: fixed_today() })
    );
    assert!(!data.is_changed());
}

#[test]
fn process_file_gives_new_text_only_on_change() {
    let text = "+++\ndate = 2002-01-01\n+++\n\nbody\n";
    assert_eq!(process_file(text, Some(d(2002, 1, 1)), fixed_today()), Ok(None));
    assert_eq!(
        process_file(text, Some(d(2003, 1, 1)), fixed_today()),
        Ok(Some("+++\ndate = 2002-01-01\nupdated = 2024-06-15\n+++\n\nbody\n".to_string()))
    );
    assert_eq!(process_file("body", None, fixed_today()), Err(ProcessError::NoFrontMatter));
}

#[test]
fn process_file_output_is_stable() {
    let first = process_file("+++\ntitle = \"t\"\n+++\nbody", Some(d(2002, 1, 1)), fixed_today())
        .unwrap()
        .unwrap();
    assert_eq!(process_file(&first, Some(d(2002, 1, 1)), fixed_today()), Ok(None));
}

#[test]
fn only_markdown_pages_are_processed() {
    assert!(!should_skip_file("post.md"));
    assert!(!should_skip_file("..md"));
    assert!(should_skip_file("_index.md"));
    assert!(should_skip_file(".md"));
    assert!(should_skip_file("post.markdown"));
    assert!(should_skip_file("image.png"));
    assert!(should_skip_file("md"));
    assert!(!should_skip_file("a_index.md"));
}
