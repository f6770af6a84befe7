use sitegen::markdown::ListStyle;
use sitegen::posts::{folder, markdown_options, node};
use sitegen::{
    get_posts, process_site_data, Config, Contents, Entry, ErrorKind, Listing, Node, Output,
    SiteData, SiteError,
};
use std::path::PathBuf;

fn config() -> Config {
    Config {
        site_name: "site".to_string(),
        input_dir: PathBuf::from("/in"),
        output_dir: PathBuf::from("/out"),
    }
}

fn dir(path: &str, entries: Vec<Entry>) -> Entry {
    Entry::Directory { canonical: PathBuf::from(path), listing: Listing::Entries(entries) }
}

fn text(path: &str, data: &str) -> Entry {
    Entry::File { canonical: PathBuf::from(path), contents: Contents::Text(data.to_string()) }
}

fn document(path: &str, html: &str) -> Output {
    Output::Document { path: PathBuf::from(path), html: html.as_bytes().to_vec() }
}

fn directory(path: &str) -> Output {
    Output::Directory { path: PathBuf::from(path) }
}

fn page(name: &str, path: &str, data: &str) -> Node {
    Node::File { name: name.to_string(), path: PathBuf::from(path), data: data.to_string() }
}

fn shelf(name: &str, path: &str, children: Vec<Node>) -> Node {
    Node::Folder { name: name.to_string(), path: PathBuf::from(path), children }
}

#[test]
fn end_to_end_scenario() {
    let listing = Listing::Entries(vec![
        dir("/in/notes", vec![text("/in/notes/intro.md", "# Title\n\n$x^2$")]),
        dir("/in/templates", vec![text("/in/templates/base.md", "base")]),
        text("/in/README.md", "# Readme"),
    ]);
    let site = get_posts(&config(), &listing).unwrap();
    let plan = process_site_data(site, &config());
    assert_eq!(plan.failure, None);
    assert_eq!(
        plan.outputs,
        vec![
            directory("/out/"),
            directory("/out/notes"),
            document(
                "/out/notes/intro.html",
                "<h1><a href=\"#title\" aria-hidden=\"true\" class=\"anchor\" id=\"header-title\"></a>Title</h1>\n<p>x^2</p>\n"
            ),
        ]
    );
}

#[test]
fn post_lands_at_the_same_relative_path_with_html_extension() {
    for name in ["post.md", "post.MD", "post.markdown", "post"] {
        let mut outputs = vec![];
        let path = PathBuf::from("/in/a/b").join(name);
        assert_eq!(sitegen::posts::file(name, &path, "text", &config(), &mut outputs), Ok(()));
        assert_eq!(outputs, vec![document("/out/a/b/post.html", "<p>text</p>\n")]);
    }
}

#[test]
fn outputs_come_depth_first_in_listing_order() {
    let tree = shelf(
        "in",
        "/in",
        vec![
            shelf(
                "b",
                "/in/b",
                vec![page("two.md", "/in/b/two.md", "two"), shelf("deep", "/in/b/deep", vec![])],
            ),
            page("one.md", "/in/one.md", "one"),
            shelf("a", "/in/a", vec![]),
        ],
    );
    let plan = process_site_data(SiteData { included_data: tree }, &config());
    assert_eq!(plan.failure, None);
    assert_eq!(
        plan.outputs,
        vec![
            directory("/out/"),
            directory("/out/b"),
            document("/out/b/two.html", "<p>two</p>\n"),
            directory("/out/b/deep"),
            document("/out/one.html", "<p>one</p>\n"),
            directory("/out/a"),
        ]
    );
}

#[test]
fn node_outside_the_input_root_ends_the_plan() {
    let tree = shelf(
        "in",
        "/in",
        vec![
            page("one.md", "/in/one.md", "one"),
            page("stray.md", "/elsewhere/stray.md", "stray"),
            page("late.md", "/in/late.md", "late"),
        ],
    );
    let plan = process_site_data(SiteData { included_data: tree }, &config());
    assert_eq!(
        plan.failure,
        Some(SiteError {
            kind: ErrorKind::Io,
            path: PathBuf::from("/elsewhere/stray.md"),
            detail: "prefix not found".to_string()
        })
    );
    assert_eq!(
        plan.outputs,
        vec![directory("/out/"), document("/out/one.html", "<p>one</p>\n")]
    );
}

#[test]
fn folder_outside_the_input_root_fails_before_its_children() {
    let children = vec![page("one.md", "/in/one.md", "one")];
    let mut outputs = vec![directory("/out/kept")];
    let result = folder("x", &PathBuf::from("/other/x"), &children, &config(), &mut outputs);
    assert_eq!(
        result,
        Err(SiteError {
            kind: ErrorKind::Io,
            path: PathBuf::from("/other/x"),
            detail: "prefix not found".to_string()
        })
    );
    assert_eq!(outputs, vec![directory("/out/kept")]);
}

#[test]
fn node_appends_to_what_is_planned_already() {
    let mut outputs = vec![directory("/out/kept")];
    let item = shelf("a", "/in/a", vec![page("p.md", "/in/a/p.md", "$$x=1$$")]);
    assert_eq!(node(&item, &config(), &mut outputs), Ok(()));
    assert_eq!(
        outputs,
        vec![
            directory("/out/kept"),
            directory("/out/a"),
            document("/out/a/p.html", "<p>\nx=1\n</p>\n"),
        ]
    );
}

#[test]
fn same_directory_may_be_planned_twice() {
    let tree = shelf("in", "/in", vec![shelf("a", "/in/a", vec![]), shelf("a", "/in/a", vec![])]);
    let plan = process_site_data(SiteData { included_data: tree }, &config());
    assert_eq!(plan.failure, None);
    assert_eq!(plan.outputs, vec![directory("/out/"), directory("/out/a"), directory("/out/a")]);
}

#[test]
fn options_are_the_site_dialect() {
    let options = markdown_options();
    let e = &options.extension;
    assert!(e.strikethrough && e.table && e.autolink && e.tasklist && e.superscript);
    assert!(!e.tagfilter && !e.wikilinks_title_after_pipe);
    assert_eq!(e.header_ids, Some("header-".to_string()));
    assert_eq!(e.front_matter_delimiter, Some("---".to_string()));
    assert!(e.footnotes && e.description_lists && e.multiline_block_quotes && e.alerts);
    assert!(e.math_dollars && e.math_code && e.shortcodes && e.wikilinks_title_before_pipe);
    assert!(e.underline && e.subscript && e.spoiler && e.greentext);
    let p = &options.parse;
    assert!(p.smart && p.relaxed_tasklist_matching && !p.relaxed_autolinks);
    assert_eq!(p.default_info_string, None);
    let r = &options.render;
    assert!(!r.hardbreaks && !r.escape && !r.sourcepos && !r.experimental_inline_sourcepos);
    assert!(!r.ignore_setext);
    assert!(r.github_pre_lang && r.full_info_string && r.unsafe_ && r.escaped_char_spans);
    assert!(r.ignore_empty_links && r.gfm_quirks && r.prefer_fenced && r.figure_with_caption);
    assert!(r.tasklist_classes);
    assert_eq!((r.width, r.ol_width), (0, 0));
    assert_eq!(r.list_style, ListStyle::Dash);
}

#[test]
fn default_config_is_empty() {
    let config = Config::default();
    assert_eq!(config.site_name, "");
    assert_eq!(config.input_dir, PathBuf::new());
    assert_eq!(config.output_dir, PathBuf::new());
}
