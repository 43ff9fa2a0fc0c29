use resolver::text::same_text;

#[test]
fn equal_strings_are_the_same_text() {
    assert!(same_text("", ""));
    assert!(same_text("addDemo", "addDemo"));
    assert!(same_text("a", "a"));
    assert!(same_text("d\u{e9}mo \u{1f600}", "d\u{e9}mo \u{1f600}"));
    let built = format!("{}{}", "add", "Demo");
    assert!(same_text(&built, "addDemo"));
}

#[test]
fn different_strings_are_not_the_same_text() {
    assert!(!same_text("", "a"));
    assert!(!same_text("a", ""));
    assert!(!same_text("addDemo", "addDemos"));
    assert!(!same_text("addDemos", "addDemo"));
    assert!(!same_text("addDemo", "addDemp"));
    assert!(!same_text("addDemo", "bddDemo"));
    assert!(!same_text("addDemo", "AddDemo"));
    assert!(!same_text("addDemo", "listDemos"));
    assert!(!same_text("e\u{301}", "\u{e9}"));
    assert!(!same_text("\u{e9}", "\u{e8}"));
    assert!(!same_text("a\u{0}", "a"));
}
