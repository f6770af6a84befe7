use sitegen::document::{
    arena, elements, parse_markdown, parsed_elements, render, rewrite_math, rewritten_elements,
    serialize,
};
use sitegen::markdown::{replacement, Element};
use sitegen::posts::markdown_options;

fn html(text: &str) -> String {
    String::from_utf8(render(text, &markdown_options()).unwrap()).unwrap()
}

#[test]
fn display_math_becomes_html_block() {
    let before = parsed_elements("$$x=1$$", &markdown_options());
    assert!(before.contains(&Element::Math { display_math: true, literal: "x=1".to_string() }));
    let after = rewritten_elements("$$x=1$$", &markdown_options());
    assert_eq!(after.len(), before.len());
    assert!(after.contains(&Element::HtmlBlock { block_type: 0, literal: "x=1".to_string() }));
    assert!(!after.iter().any(|e| matches!(e, Element::Math { .. })));
}

#[test]
fn inline_math_becomes_html_inline() {
    let before = parsed_elements("$y=2$", &markdown_options());
    assert!(before.contains(&Element::Math { display_math: false, literal: "y=2".to_string() }));
    let after = rewritten_elements("$y=2$", &markdown_options());
    assert!(after.contains(&Element::HtmlInline { literal: "y=2".to_string() }));
    assert!(!after.iter().any(|e| matches!(e, Element::Math { .. })));
}

#[test]
fn replacement_of_empty_display_math_is_empty_block() {
    assert_eq!(
        replacement(true, String::new()),
        Element::HtmlBlock { block_type: 0, literal: String::new() }
    );
    assert_eq!(replacement(false, String::new()), Element::HtmlInline { literal: String::new() });
    assert_eq!(
        replacement(true, "x=1".to_string()),
        Element::HtmlBlock { block_type: 0, literal: "x=1".to_string() }
    );
    assert_eq!(
        replacement(false, "y=2".to_string()),
        Element::HtmlInline { literal: "y=2".to_string() }
    );
}

#[test]
fn mixed_math_routes_by_its_own_flag() {
    let text = "a $p$ b\n\n$$q$$\n\nc $r$";
    let after = rewritten_elements(text, &markdown_options());
    let raw: Vec<&Element> = after
        .iter()
        .filter(|e| matches!(e, Element::HtmlBlock { .. } | Element::HtmlInline { .. }))
        .collect();
    assert_eq!(
        raw,
        vec![
            &Element::HtmlInline { literal: "p".to_string() },
            &Element::HtmlBlock { block_type: 0, literal: "q".to_string() },
            &Element::HtmlInline { literal: "r".to_string() },
        ]
    );
}

#[test]
fn nodes_without_math_are_untouched() {
    let text = "# Title\n\nplain *text* and <b>raw</b>\n";
    assert_eq!(
        rewritten_elements(text, &markdown_options()),
        parsed_elements(text, &markdown_options())
    );
}

#[test]
fn rendered_inline_math_is_raw_html() {
    assert!(html("# Title\n\n$x^2$").contains("<p>x^2</p>"));
    assert!(html("$<b>$").contains("<p><b></p>"));
}

#[test]
fn parser_reports_raw_html_nodes_with_their_fields() {
    let nodes = parsed_elements("<div>\nraw\n</div>\n\ntext <b>bold</b>", &markdown_options());
    assert!(nodes.contains(&Element::HtmlBlock {
        block_type: 6,
        literal: "<div>\nraw\n</div>\n".to_string()
    }));
    assert!(nodes.contains(&Element::HtmlInline { literal: "<b>".to_string() }));
    assert_eq!(nodes[0], Element::Other);
}

#[test]
fn extension_settings_reach_the_parser() {
    let mut options = markdown_options();
    assert!(parsed_elements("$x$", &options)
        .contains(&Element::Math { display_math: false, literal: "x".to_string() }));
    options.extension.math_dollars = false;
    assert!(!parsed_elements("$x$", &options).iter().any(|e| matches!(e, Element::Math { .. })));
    assert_eq!(
        String::from_utf8(render("$x$", &options).unwrap()).unwrap(),
        "<p>$x$</p>\n"
    );
    options.extension.header_ids = None;
    assert_eq!(
        String::from_utf8(render("# Title", &options).unwrap()).unwrap(),
        "<h1>Title</h1>\n"
    );
    options.extension.header_ids = Some("h-".to_string());
    assert_eq!(
        String::from_utf8(render("# Title", &options).unwrap()).unwrap(),
        "<h1><a href=\"#title\" aria-hidden=\"true\" class=\"anchor\" id=\"h-title\"></a>Title</h1>\n"
    );
}

#[test]
fn parse_settings_reach_the_parser() {
    let mut options = markdown_options();
    assert_eq!(html("a -- b"), "<p>a \u{2013} b</p>\n");
    options.parse.smart = false;
    assert_eq!(
        String::from_utf8(render("a -- b", &options).unwrap()).unwrap(),
        "<p>a -- b</p>\n"
    );
}

#[test]
fn render_settings_reach_the_serializer() {
    let mut options = markdown_options();
    assert_eq!(html("$<b>$"), "<p><b></p>\n");
    options.render.unsafe_ = false;
    assert_eq!(
        String::from_utf8(render("$<b>$", &options).unwrap()).unwrap(),
        "<p><!-- raw HTML omitted --></p>\n"
    );
    options.render.escape = true;
    assert_eq!(
        String::from_utf8(render("$<b>$", &options).unwrap()).unwrap(),
        "<p>&lt;b&gt;</p>\n"
    );
    options.render.hardbreaks = true;
    assert_eq!(
        String::from_utf8(render("a\nb", &options).unwrap()).unwrap(),
        "<p>a<br />\nb</p>\n"
    );
}

#[test]
fn fenced_code_is_highlighted_with_classes() {
    let out = html("```rust\nfn main() {}\n```\n");
    assert!(out.starts_with(
        "<pre class=\"syntax-highlighting\"><code><span class=\"source rust\">"
    ));
    assert!(out.contains("<span class=\"storage type function rust\">fn</span>"));
    assert!(out.ends_with("</code></pre>\n"));
}

#[test]
fn display_math_renders_as_a_block_of_raw_html() {
    assert_eq!(html("$$x=1$$"), "<p>\nx=1\n</p>\n");
    assert_eq!(html("before $y=2$ after"), "<p>before y=2 after</p>\n");
}

#[test]
fn blank_display_math_is_still_rewritten() {
    assert_eq!(
        parsed_elements("$$ $$", &markdown_options()),
        vec![
            Element::Other,
            Element::Other,
            Element::Math { display_math: true, literal: " ".to_string() }
        ]
    );
    assert_eq!(
        rewritten_elements("$$ $$", &markdown_options()),
        vec![
            Element::Other,
            Element::Other,
            Element::HtmlBlock { block_type: 0, literal: " ".to_string() }
        ]
    );
}

#[test]
fn code_math_is_inline_math() {
    assert_eq!(
        rewritten_elements("$`x`$", &markdown_options()),
        vec![Element::Other, Element::Other, Element::HtmlInline { literal: "x".to_string() }]
    );
}

#[test]
fn rewrite_changes_the_document_in_place() {
    let nodes = arena();
    let mut doc = parse_markdown(&nodes, "a $p$\n\n$$q$$", &markdown_options());
    let before = elements(&doc);
    rewrite_math(&mut doc);
    let after = elements(&doc);
    assert_eq!(after.len(), before.len());
    for (old, new) in before.iter().zip(after.iter()) {
        match old {
            Element::Math { display_math: true, literal } => {
                assert_eq!(*new, Element::HtmlBlock { block_type: 0, literal: literal.clone() })
            }
            Element::Math { display_math: false, literal } => {
                assert_eq!(*new, Element::HtmlInline { literal: literal.clone() })
            }
            other => assert_eq!(new, other),
        }
    }
    assert_eq!(before.iter().filter(|e| matches!(e, Element::Math { .. })).count(), 2);
    rewrite_math(&mut doc);
    assert_eq!(elements(&doc), after);
    assert_eq!(
        String::from_utf8(serialize(&doc).unwrap()).unwrap(),
        "<p>a p</p>\n<p>\nq\n</p>\n"
    );
}
