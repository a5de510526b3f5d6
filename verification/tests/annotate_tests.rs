//! Interactive-element geometry and descriptions.

use eoka::annotate::InteractiveElement;

fn element(tag: &str, text: &str, bounds: (u32, u32, u32, u32)) -> InteractiveElement {
    InteractiveElement {
        index: 1,
        tag: tag.to_string(),
        text: text.to_string(),
        bounds,
        clickable: true,
        input_type: None,
        href: None,
        role: None,
    }
}

#[test]
fn test_interactive_element_center() {
    let element = element("button", "Click me", (100, 100, 200, 50));
    let (cx, cy) = element.center();
    assert_eq!(cx, 200); // 100 + 200/2
    assert_eq!(cy, 125); // 100 + 50/2
}

#[test]
fn test_interactive_element_contains() {
    let element = element("button", "Click me", (100, 100, 200, 50));
    assert!(element.contains(150, 120));
    assert!(element.contains(100, 100)); // Edge
    assert!(element.contains(300, 150)); // Edge
    assert!(!element.contains(50, 50)); // Outside
    assert!(!element.contains(350, 120)); // Outside
}

#[test]
fn test_interactive_element_description() {
    let button = element("button", "Submit", (0, 0, 100, 30));
    assert_eq!(button.description(), "button: \"Submit\"");

    let mut link = element("a", "", (0, 0, 100, 30));
    link.index = 2;
    link.href = Some("https://example.com".to_string());
    assert_eq!(link.description(), "a: https://example.com");

    let mut input = element("input", "", (0, 0, 100, 30));
    input.index = 3;
    input.input_type = Some("email".to_string());
    input.role = Some("textbox".to_string());
    assert_eq!(input.description(), "input [textbox] (type=email)");
}

#[test]
fn test_description_truncates_long_text() {
    let long = "a".repeat(40);
    let e = element("div", &long, (0, 0, 1, 1));
    let d = e.description();
    assert_eq!(d, format!("div: \"{}...\"", "a".repeat(27)));
}

#[test]
fn test_description_truncates_by_bytes() {
    // Thirteen two-byte characters plus five ASCII ones: 31 bytes, and
    // byte 27 falls on a character boundary, one ASCII character in.
    let text = format!("{}abcde", "\u{e9}".to_string().repeat(13));
    assert_eq!(text.len(), 31);
    let e = element("div", &text, (0, 0, 1, 1));
    let expected = format!("div: \"{}a...\"", "\u{e9}".to_string().repeat(13));
    assert_eq!(e.description(), expected);
}

#[test]
fn test_description_role_only() {
    let mut e = element("div", "", (0, 0, 1, 1));
    e.role = Some("dialog".to_string());
    assert_eq!(e.description(), "div [dialog]");
    let bare = element("span", "", (0, 0, 1, 1));
    assert_eq!(bare.description(), "span");
}
