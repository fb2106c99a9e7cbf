use bot::markdown::{escape_angles, md2html, unwrap_paragraph};

#[test]
fn test_md2html() {
    assert_eq!("&lt;modal&gt;", &md2html(String::from("<modal>")));
    assert_eq!("&quot;text&quot;", &md2html(String::from("\"text\"")));
    assert_eq!("&amp;", &md2html(String::from("&")));
    assert_eq!("<strong>bold</strong>", &md2html(String::from("**bold**")));
    assert_eq!("<a href=\"https://site.com/\">link</a>", &md2html(String::from("[link](https://site.com/)")));
}

#[test]
fn angle_brackets_become_entities() {
    assert_eq!(escape_angles("<modal>"), "&lt;modal&gt;");
    assert_eq!(escape_angles("a < b > c"), "a &lt; b &gt; c");
    assert_eq!(escape_angles("<<>>"), "&lt;&lt;&gt;&gt;");
    assert_eq!(escape_angles("plain & \"quoted\""), "plain & \"quoted\"");
    assert_eq!(escape_angles(""), "");
    assert_eq!(escape_angles("模态框 <框>"), "模态框 &lt;框&gt;");
}

#[test]
fn escaped_text_holds_no_angle_bracket() {
    for text in ["<p>", "</p><p>", "a>b<c", "<<<>>>", "<script>alert(1)</script>"] {
        let safe = escape_angles(text);
        assert!(!safe.contains('<'));
        assert!(!safe.contains('>'));
    }
}

#[test]
fn one_paragraph_container_is_taken_away() {
    assert_eq!(unwrap_paragraph("<p>text</p>\n"), "text");
    assert_eq!(unwrap_paragraph("  <p>text</p>  "), "text");
    assert_eq!(unwrap_paragraph("<p><p>text</p></p>"), "<p>text</p>");
    assert_eq!(unwrap_paragraph("<h1>title</h1>\n"), "<h1>title</h1>");
    assert_eq!(unwrap_paragraph("<p>open"), "open");
    assert_eq!(unwrap_paragraph("close</p>"), "close");
    assert_eq!(unwrap_paragraph("<p>"), "");
    assert_eq!(unwrap_paragraph("</p>"), "");
    assert_eq!(unwrap_paragraph("<p></p>"), "");
    assert_eq!(unwrap_paragraph("<p>a</p>\n<p>b</p>\n"), "a</p>\n<p>b");
    assert_eq!(unwrap_paragraph(""), "");
    assert_eq!(unwrap_paragraph(" \n\t"), "");
    assert_eq!(unwrap_paragraph("<p> inner </p>"), " inner ");
}

#[test]
fn raw_tags_do_not_reach_the_channel() {
    assert_eq!(md2html(String::from("<b>bold</b>")), "&lt;b&gt;bold&lt;/b&gt;");
    assert_eq!(md2html(String::from("a <br> b")), "a &lt;br&gt; b");
}

#[test]
fn markup_is_rendered() {
    assert_eq!(md2html(String::from("*em*")), "<em>em</em>");
    assert_eq!(md2html(String::from("`code`")), "<code>code</code>");
    assert_eq!(md2html(String::from("plain")), "plain");
    assert_eq!(md2html(String::new()), "");
}

fn with_std(text: &str) -> String {
    let text = text.replace('<', "&lt;").replace('>', "&gt;");
    let parser = pulldown_cmark::Parser::new(&text);
    let mut output = String::new();
    pulldown_cmark::html::push_html(&mut output, parser);
    output.trim().trim_start_matches("<p>").trim_end_matches("</p>").into()
}

#[test]
fn conversion_agrees_with_std_on_rendered_text() {
    let texts = [
        "kumiko",
        "**bold** and *em* and `code`",
        "[e5096d9](https://github.com/bs-community/blessing-skin-server/commit/e5096d9): fix <modal>",
        "# heading",
        "- item\n- item",
        "one\n\ntwo",
        "> quote",
        "a < b && c > d",
        "<p>already</p>",
        "  padded  ",
        "",
        "修复：皮肤库 <搜索> 的问题",
        "1. first\n2. second",
        "line\\\nbreak",
    ];
    for text in texts {
        assert_eq!(md2html(text.to_string()), with_std(text));
        assert_eq!(escape_angles(text), text.replace('<', "&lt;").replace('>', "&gt;"));
    }
}

#[test]
fn escaping_goes_part_by_part() {
    for (a, b) in [("<a", "b>"), ("", "<"), (">", ""), ("x < y", " > z"), ("[id](url)", ": <modal>")] {
        let whole = format!("{}{}", a, b);
        assert_eq!(escape_angles(&whole), format!("{}{}", escape_angles(a), escape_angles(b)));
    }
}
