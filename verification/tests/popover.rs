use comet_ui::popover::{
    classify_key, contains, filter_indices, match_rank, menu_step, order_by_rank, space_letters,
    starts_with, tracked_upper, Loadable, MenuKey,
};

#[test]
fn menu_step_wraps_and_enters() {
    // Entering an empty menu stays out.
    assert_eq!(menu_step(None, 0, 1), None);
    assert_eq!(menu_step(Some(3), 0, 1), None);
    // Entering from nothing lands on the matching edge.
    assert_eq!(menu_step(None, 3, 1), Some(0));
    assert_eq!(menu_step(None, 3, -1), Some(2));
    // Stepping wraps both ways.
    assert_eq!(menu_step(Some(2), 3, 1), Some(0));
    assert_eq!(menu_step(Some(0), 3, -1), Some(2));
    assert_eq!(menu_step(Some(1), 3, 1), Some(2));
}

#[test]
fn a_step_back_undoes_a_step() {
    for at in 0..5usize {
        for delta in [-7isize, -1, 1, 3, 12] {
            let next = menu_step(Some(at), 5, delta);
            assert_eq!(menu_step(next, 5, -delta), Some(at));
        }
    }
}

#[test]
fn filter_ranks_prefix_before_substring() {
    let labels: Vec<String> =
        ["main", "feature/main-sync", "master", "dev"].iter().map(|s| s.to_string()).collect();
    // Prefix matches ("main", "master") come before the substring match.
    assert_eq!(filter_indices("ma", &labels), vec![0, 2, 1]);
    // Case-insensitive.
    assert_eq!(filter_indices("MA", &labels), vec![0, 2, 1]);
    // No matches.
    assert!(filter_indices("zzz", &labels).is_empty());
    // An empty or white query keeps input order.
    assert_eq!(filter_indices("", &labels), vec![0, 1, 2, 3]);
    assert_eq!(filter_indices("   ", &labels), vec![0, 1, 2, 3]);
}

#[test]
fn filtering_uses_the_case_mapping_of_unicode() {
    let labels: Vec<String> = vec!["ÄPFEL".into(), "Zapfel".into()];
    assert_eq!(filter_indices("äp", &labels), vec![0]);
    assert_eq!(order_by_rank(&[Some(1), None, Some(0), Some(1)]), vec![2, 0, 3]);
}

#[test]
fn match_rank_kinds() {
    assert_eq!(match_rank("re", "release"), Some(0));
    assert_eq!(match_rank("lease", "release"), Some(1));
    assert_eq!(match_rank("x", "release"), None);
    assert_eq!(match_rank("", "anything"), Some(1));
}

#[test]
fn parts_of_texts_are_found() {
    assert!(starts_with("release", "re"));
    assert!(!starts_with("re", "release"));
    assert!(contains("release", "lea"));
    assert!(contains("release", ""));
    assert!(!contains("release", "lee"));
}

#[test]
fn key_classification() {
    assert_eq!(classify_key("up", false, false), MenuKey::Up);
    assert_eq!(classify_key("down", false, false), MenuKey::Down);
    assert_eq!(classify_key("enter", false, false), MenuKey::Enter);
    assert_eq!(classify_key("enter", true, false), MenuKey::ModEnter);
    assert_eq!(classify_key("enter", false, true), MenuKey::ModEnter);
    assert_eq!(classify_key("escape", false, false), MenuKey::Escape);
    assert_eq!(classify_key("backspace", false, false), MenuKey::Backspace);
    assert_eq!(classify_key("a", false, false), MenuKey::Other);
}

#[test]
fn tracked_upper_spaces_letters() {
    assert_eq!(tracked_upper("ab"), "A\u{200A}B");
    assert_eq!(
        tracked_upper("Question"),
        "Q\u{200A}U\u{200A}E\u{200A}S\u{200A}T\u{200A}I\u{200A}O\u{200A}N"
    );
    assert_eq!(tracked_upper(""), "");
    // A letter that becomes two is spaced as two.
    assert_eq!(tracked_upper("ß"), "S\u{200A}S");
    assert_eq!(space_letters("xyz"), "x\u{200A}y\u{200A}z");
}

#[test]
fn loadable_accessors() {
    let l: Loadable<u32> = Loadable::Ready(7);
    assert_eq!(l.ready(), Some(&7));
    assert!(!l.is_loading());
    let e: Loadable<u32> = Loadable::Error("boom".into());
    assert_eq!(e.error(), Some("boom"));
    assert!(Loadable::<u32>::Loading.is_loading());
    assert_eq!(Loadable::<u32>::default(), Loadable::Idle);
}
