use mditor_ui::text::{text_contains, truncate_and_trailoff};

#[test]
fn truncation_keeps_short_text_and_marks_a_cut() {
    assert_eq!(truncate_and_trailoff("notes", 5), "notes");
    assert_eq!(truncate_and_trailoff("notebook", 5), "noteb…");
    assert_eq!(truncate_and_trailoff("笔记本电脑", 2), "笔记…");
    assert_eq!(truncate_and_trailoff("", 3), "");
}

#[test]
fn containment() {
    assert!(text_contains("Are you sure (yes/no)?", "yes/no"));
    assert!(!text_contains("Password:", "yes/no"));
    assert!(text_contains("abc", ""));
    assert!(!text_contains("ab", "abc"));
}
