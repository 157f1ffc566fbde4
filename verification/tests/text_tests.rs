use llm_commit::text::{blank, trim};

#[test]
fn trim_cuts_both_ends() {
    assert_eq!(trim("  feat: add x \n"), "feat: add x");
    assert_eq!(trim("\n\tfix: bug\r\n"), "fix: bug");
}

#[test]
fn trim_keeps_what_is_inside() {
    assert_eq!(trim(" fix: 🐛bug\ndetails \n"), "fix: 🐛bug\ndetails");
    assert_eq!(trim("a  b\t\tc"), "a  b\t\tc");
}

#[test]
fn trim_of_trimmed_text_changes_nothing() {
    assert_eq!(trim("feat: ✨add x"), "feat: ✨add x");
    assert_eq!(trim("x"), "x");
}

#[test]
fn trim_of_blank_text_is_empty() {
    assert_eq!(trim(""), "");
    assert_eq!(trim(" "), "");
    assert_eq!(trim(" \t\r\n \u{3000}\u{a0}"), "");
}

#[test]
fn trim_cuts_one_side_only_where_the_other_is_clean() {
    assert_eq!(trim("  left"), "left");
    assert_eq!(trim("right  "), "right");
}

#[test]
fn trim_knows_unicode_white_space() {
    assert_eq!(trim("\u{2003}\u{85}wide\u{2028}\u{205f}"), "wide");
    assert_eq!(trim("\u{200b}zero width\u{200b}"), "\u{200b}zero width\u{200b}");
    assert_eq!(trim("\u{feff}bom"), "\u{feff}bom");
}

#[test]
fn trim_agrees_with_the_standard_library() {
    let samples = [
        "",
        " ",
        "a",
        " a",
        "a ",
        " a ",
        "\n\n",
        "  two  words  ",
        "\u{1680}ogham\u{1680}",
        "✨",
        " ✔️ ",
        "\u{0b}\u{0c}vt ff\u{0c}\u{0b}",
        "\u{1f}unit separator\u{1f}",
        "tab\tinside\t",
    ];
    for sample in samples {
        assert_eq!(trim(sample), sample.trim(), "sample {:?}", sample);
    }
}

#[test]
fn blank_holds_of_white_space_only() {
    assert!(blank(""));
    assert!(blank(" "));
    assert!(blank("\n"));
    assert!(blank(" \t\r\n\u{2029}"));
}

#[test]
fn blank_fails_on_any_other_character() {
    assert!(!blank("a"));
    assert!(!blank("   a   "));
    assert!(!blank("\n\n."));
    assert!(!blank("\u{200b}"));
    assert!(!blank("diff --git a/src/main.rs b/src/main.rs\n"));
}

#[test]
fn blank_is_emptiness_after_trimming() {
    let samples = ["", "  ", "x", " x ", "\t\n", "\u{a0}", "\u{a0}y"];
    for sample in samples {
        assert_eq!(blank(sample), trim(sample).is_empty(), "sample {:?}", sample);
    }
}
