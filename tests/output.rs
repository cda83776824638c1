use rdm::output::{markdown_kv_table, markdown_table, pagination_hint, Meta, OutputFormat};
use rdm::text::{truncate, truncate_comment, truncate_name, u32_text};

#[test]
fn test_meta_pagination() {
    let meta = Meta::paginated(100, 25, 0);
    assert_eq!(meta.total_count, Some(100));
    assert_eq!(meta.limit, Some(25));
    assert_eq!(meta.offset, Some(0));
    assert_eq!(meta.next_offset, Some(25));
}

#[test]
fn test_meta_pagination_last_page() {
    let meta = Meta::paginated(100, 25, 75);
    assert_eq!(meta.next_offset, None);
}

#[test]
fn pagination_near_the_integer_limit() {
    let meta = Meta::paginated(u32::MAX, u32::MAX, 1);
    assert_eq!(meta.next_offset, None);
    assert_eq!(Meta::paginated(10, 3, 6).next_offset, Some(9));
    assert_eq!(Meta::paginated(0, 25, 0).next_offset, None);
}

#[test]
fn page_hint_text() {
    let meta = Meta::paginated(100, 25, 25);
    assert_eq!(
        pagination_hint("rdm issue list ", &meta),
        Some("*Use `rdm issue list --offset 50` for next page*".to_string())
    );
    assert_eq!(pagination_hint("x ", &Meta::paginated(10, 25, 0)), None);
    assert_eq!(u32_text(4_294_967_295), "4294967295");
}

#[test]
fn tables_render_rows() {
    let t = markdown_table(
        &["ID", "Name"],
        vec![vec!["1".to_string(), "Dev".to_string()], vec!["2".to_string(), "QA".to_string()]],
    );
    assert_eq!(t, "| ID | Name |\n|----|----|\n| 1 | Dev |\n| 2 | QA |\n");
    let kv = markdown_kv_table(&[("ID", "7".to_string()), ("Name", "x".to_string())]);
    assert_eq!(kv, "| Field | Value |\n|-------|-------|\n| ID | 7 |\n| Name | x |\n");
    let none: [&str; 0] = [];
    assert_eq!(markdown_table(&none, Vec::new()), "|\n|\n");
}

#[test]
fn truncation_by_characters() {
    assert_eq!(truncate_name("Alexandra Smithson", 15), "Alexandra Sm...");
    assert_eq!(truncate_name("Bob", 15), "Bob");
    assert_eq!(truncate("exactly", 7), "exactly");
    assert_eq!(truncate("ééééééé", 5), "éé...");
    assert_eq!(truncate_comment("line one\nline two"), "line one line two");
    assert_eq!(
        truncate_comment("a comment that is clearly longer than thirty"),
        "a comment that is clearly l..."
    );
}

#[test]
fn default_format_is_markdown() {
    assert_eq!(OutputFormat::default(), OutputFormat::Markdown);
    assert_eq!(Meta::default().next_offset, None);
}
