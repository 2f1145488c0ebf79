use lib::testing::snapshot::{diff, split_lines};

#[test]
fn diff_marks_only_what_changed() {
    let out = diff("a\nb\nc\n", "a\nB\nc\n");
    assert!(out.contains("- b"), "{out}");
    assert!(out.contains("+ B"), "{out}");
    assert!(!out.contains("- a"), "{out}");
    assert!(!out.contains("- c"), "{out}");
}

#[test]
fn diff_of_identical_text_is_empty_of_changes() {
    let out = diff("a\nb\n", "a\nb\n");
    assert!(!out.contains("- "), "{out}");
    assert!(!out.contains("+ "), "{out}");
}

#[test]
fn diff_handles_pure_insertion() {
    let out = diff("a\nc\n", "a\nb\nc\n");
    assert!(out.contains("+ b"), "{out}");
    assert!(!out.contains("- "), "{out}");
}

#[test]
fn diff_handles_pure_deletion() {
    let out = diff("a\nb\nc\n", "a\nc\n");
    assert!(out.contains("- b"), "{out}");
    assert!(!out.contains("+ "), "{out}");
}

#[test]
fn diff_counts_the_shared_head_and_tail() {
    assert_eq!(
        diff("a\nb\nc\n", "a\nB\nc\n"),
        "  ... 1 identical line(s)\n- b\n+ B\n  ... 1 identical line(s)\n"
    );
    assert_eq!(diff("a\nb\n", "a\nb\n"), "  ... 2 identical line(s)\n");
    assert_eq!(diff("", "x\n"), "+ x\n");
}

#[test]
fn identical_lines_are_counted_once_not_as_head_and_tail() {
    let text = "l1\nl2\nl3\nl4\nl5\nl6\nl7\nl8\nl9\nl10\nl11\nl12\n";
    assert_eq!(diff(text, text), "  ... 12 identical line(s)\n");
}

#[test]
fn lines_split_like_the_standard_library() {
    for text in ["", "a", "a\n", "a\r\nb", "a\n\nb\n", "\n", "x\ry\n", "tail\r"] {
        let expected: Vec<String> = text.lines().map(String::from).collect();
        assert_eq!(split_lines(text), expected, "{text:?}");
    }
}
