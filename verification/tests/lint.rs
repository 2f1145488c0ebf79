use lib::lint::{check, finding, forbidden_in, forbidden_in_lowered, is_under_src, is_whitespace, scan, verdict};

#[test]
fn every_forbidden_word_is_caught_in_the_spelling_code_would_use() {
    for word in [
        "CrossPoint",
        "Xteink",
        "FreeInk",
        "embedded_graphics",
        "Badger 2040",
        "Tufty2040",
        "Pimoroni",
        "Seeed",
        "Sticky",
        "X4PRO",
        "x4pro",
        "GfxRenderer",
    ] {
        assert!(
            forbidden_in(&format!("let board = {word};")).is_some(),
            "{word} would land in the framework unnoticed"
        );
    }
}

#[test]
fn an_ordinary_line_is_not_forbidden() {
    assert!(forbidden_in("pub fn draw_text(&mut self, at: Point) {").is_none());
    assert!(forbidden_in("/// The panel this screen is painted onto.").is_none());
}

#[test]
fn a_spaced_spelling_is_caught_once_closed_up() {
    assert_eq!(forbidden_in("the X4 Pro board"), Some("x4pro"));
    assert_eq!(forbidden_in("gfx\trenderer"), Some("gfxrenderer"));
}

#[test]
fn the_first_word_in_the_list_is_the_one_named() {
    assert_eq!(forbidden_in("badger beside crosspoint"), Some("crosspoint"));
}

#[test]
fn whitespace_is_the_unicode_property() {
    for c in ['\t', '\n', ' ', '\u{85}', '\u{a0}', '\u{2003}', '\u{3000}', 'a', '_', '\u{200b}'] {
        assert_eq!(is_whitespace(c), c.is_whitespace(), "{c:?}");
    }
}

#[test]
fn a_finding_names_the_file_the_line_and_the_word() {
    assert_eq!(finding("src/lib.rs", 42, "badger"), "  src/lib.rs:42  badger");
}


#[test]
fn a_scan_reports_each_line_that_names_a_word() {
    let text = "fn main() {}\n// runs on a Badger\nlet x = 1;\nstruct X4Pro;\n";
    assert_eq!(
        scan("src/lib.rs", text),
        vec!["  src/lib.rs:2  badger".to_string(), "  src/lib.rs:4  x4pro".to_string()]
    );
    assert!(scan("src/lib.rs", "pub fn draw(&mut self) {}\n").is_empty());
}

#[test]
fn the_verdict_says_what_was_scanned_and_what_was_found() {
    assert_eq!(verdict(3, &vec![]), Ok("3 file(s), none naming a product or a backend".to_string()));
    assert_eq!(
        verdict(0, &vec![]),
        Err("no sources under src/ — the filter is matching nothing".to_string())
    );
    let found = vec!["  a.rs:1  seeed".to_string(), "  b.rs:2  tufty".to_string()];
    assert_eq!(
        verdict(2, &found),
        Err("  a.rs:1  seeed\n  b.rs:2  tufty\n\nThe framework depends on traits; backends implement them. Add a\ntrait method rather than a special case.".to_string())
    );
}

#[test]
fn lowered_text_is_matched_as_it_stands_and_closed_up() {
    assert_eq!(forbidden_in_lowered("the x4 pro board"), Some("x4pro"));
    assert_eq!(forbidden_in_lowered("badger beside crosspoint"), Some("crosspoint"));
    assert_eq!(forbidden_in_lowered("pub fn draw(&mut self) {}"), None);
    assert_eq!(
        forbidden_in_lowered("CROSSPOINT"),
        None,
        "the text is taken as already lowercased; lowercasing is the caller's"
    );
}

#[test]
fn check_scans_only_files_under_src() {
    let files = vec![
        ("src/lib.rs".to_string(), "fn a() {}\n".to_string()),
        ("tests/t.rs".to_string(), "// X4Pro here\n".to_string()),
        ("src/ui.rs".to_string(), "let x = 1;\n".to_string()),
    ];
    assert_eq!(check(&files), Ok("2 file(s), none naming a product or a backend".to_string()));
}

#[test]
fn check_reports_every_finding_in_file_order() {
    let files = vec![
        ("src/b.rs".to_string(), "ok\n// an x4 pro\n".to_string()),
        ("src/a.rs".to_string(), "ok\nok\nx4pro\n".to_string()),
    ];
    let err = check(&files).unwrap_err();
    assert!(err.starts_with("  src/b.rs:2  x4pro\n  src/a.rs:3  x4pro\n\nThe framework depends on traits"));
}

#[test]
fn check_with_nothing_under_src_is_an_error() {
    let files = vec![("xtask/main.rs".to_string(), "fn main() {}\n".to_string())];
    assert_eq!(check(&files), Err("no sources under src/ — the filter is matching nothing".to_string()));
}

#[test]
fn is_under_src_needs_the_whole_prefix() {
    assert!(is_under_src("src/a.rs"));
    assert!(!is_under_src("src"));
    assert!(!is_under_src("srcs/a.rs"));
    assert!(!is_under_src("xsrc/a.rs"));
}
