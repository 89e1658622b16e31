use min_desk::document::{extract_text, is_blank_text, is_hidden_element, Document, DomNode, NodeKind};
use min_desk::html::extract_text_from_html;
use min_desk::text::{equals_ignore_ascii_case, starts_with};

fn node(kind: NodeKind, children: Vec<usize>) -> DomNode {
    DomNode { kind, children }
}

#[test]
fn extract_skips_script() {
    assert_eq!(
        extract_text_from_html("<html><body><p>Hello</p><script>evil()</script></body></html>"),
        "Hello"
    );
}

#[test]
fn extract_keeps_order() {
    assert_eq!(extract_text_from_html("<div>A</div><div>B</div>"), "A\nB");
}

#[test]
fn extract_empty_input() {
    assert_eq!(extract_text_from_html(""), "");
}

#[test]
fn extract_skips_style_and_blank_text() {
    let html = "<html><head><style>p { color: red }</style><title>T</title></head>\
                <body>\n  <p>  one  </p>\n\n<!-- note --><p>two</p></body></html>";
    assert_eq!(extract_text_from_html(html), "T\n  one  \ntwo");
}

#[test]
fn extract_malformed_markup() {
    assert_eq!(extract_text_from_html("<p>open <b>bold</p> tail"), "open \nbold\n tail");
    assert_eq!(extract_text_from_html("plain"), "plain");
    assert_eq!(extract_text_from_html("<script>only()</script>"), "");
}

#[test]
fn extract_skips_hidden_elements_in_any_case() {
    assert_eq!(
        extract_text_from_html("<p>A</p><SCRIPT>x()</SCRIPT><Style>p{color:red}</Style>"),
        "A"
    );
}

#[test]
fn extract_whitespace_only_text() {
    assert_eq!(extract_text_from_html("<div>   </div>\n<p>\t</p>"), "");
}

#[test]
fn extract_is_unchanged_by_a_script_element() {
    let plain = "<body><p>one</p><p>two</p></body>";
    let with_script = "<body><p>one</p><script>var s = 1;</script><p>two</p></body>";
    assert_eq!(extract_text_from_html(plain), extract_text_from_html(with_script));
    assert_eq!(extract_text_from_html(plain), "one\ntwo");
}

#[test]
fn extract_deep_nesting() {
    let mut html = String::new();
    for _ in 0..5000 {
        html.push_str("<div>");
    }
    html.push_str("deep");
    for _ in 0..5000 {
        html.push_str("</div>");
    }
    assert_eq!(extract_text_from_html(&html), "deep");
}

#[test]
fn arena_extraction() {
    let doc = Document {
        nodes: vec![
            node(NodeKind::Root, vec![1, 4]),
            node(NodeKind::Element("p".to_string()), vec![2, 3]),
            node(NodeKind::Text(" a ".to_string()), vec![]),
            node(NodeKind::Text("b".to_string()), vec![]),
            node(NodeKind::Element("SCRIPT".to_string()), vec![5]),
            node(NodeKind::Text("x".to_string()), vec![]),
        ],
    };
    assert_eq!(extract_text(&doc), "a \nb");
}

#[test]
fn arena_hidden_and_other_nodes() {
    let doc = Document {
        nodes: vec![
            node(NodeKind::Root, vec![1, 3, 5]),
            node(NodeKind::Other, vec![2]),
            node(NodeKind::Text("c".to_string()), vec![]),
            node(NodeKind::Element("Style".to_string()), vec![4]),
            node(NodeKind::Text("hidden".to_string()), vec![]),
            node(NodeKind::Text(" \t\n".to_string()), vec![]),
        ],
    };
    assert_eq!(extract_text(&doc), "c");
    let lone = Document { nodes: vec![node(NodeKind::Root, vec![])] };
    assert_eq!(extract_text(&lone), "");
}

#[test]
fn hidden_element_names() {
    assert!(is_hidden_element("script"));
    assert!(is_hidden_element("ScRiPt"));
    assert!(is_hidden_element("STYLE"));
    assert!(!is_hidden_element("scripts"));
    assert!(!is_hidden_element("p"));
    assert!(!is_hidden_element(""));
}

#[test]
fn blank_text_and_trim() {
    assert!(is_blank_text(""));
    assert!(is_blank_text(" \n\t\u{a0}"));
    assert!(!is_blank_text(" x "));
    assert!(is_blank_text("\u{3000}\u{2028}\u{85}"));
    let doc = Document {
        nodes: vec![
            node(NodeKind::Root, vec![1]),
            node(NodeKind::Text("\u{3000} a b \u{2028}".to_string()), vec![]),
        ],
    };
    assert_eq!(extract_text(&doc), "a b");
}

#[test]
fn prefixes_and_case() {
    assert!(starts_with("https://x", "https://"));
    assert!(!starts_with("http", "https://"));
    assert!(starts_with("abc", ""));
    assert!(equals_ignore_ascii_case("Hello", "hELLO"));
    assert!(!equals_ignore_ascii_case("Hello", "Hell"));
    assert!(!equals_ignore_ascii_case("[", "{"));
}
