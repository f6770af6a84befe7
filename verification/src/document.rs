//! A parsed document held by `comrak`, and what the library does with it:
//! parse, rewrite the math nodes, serialize.

use crate::markdown::replacement;
use crate::markdown::rewrite_element;
use crate::markdown::rewritten;
use crate::markdown::Element;
use crate::markdown::ElementView;
use crate::markdown::ExtensionSettings;
use crate::markdown::ListStyle;
use crate::markdown::MarkdownOptions;
use crate::markdown::MarkdownOptionsView;
use crate::markdown::ParseSettings;
use crate::markdown::RenderSettings;
use vstd::prelude::*;

verus! {

/// `comrak::Options`, the configuration bundle as `comrak` takes it. Verus
/// sees nothing inside it; `options_model` and `options_callbacks` say what
/// it holds.
#[verifier::external_type_specification]
#[verifier::external_body]
pub struct ExOptions<'c>(comrak::Options<'c>);

/// The arena that owns the nodes of one document. It holds a
/// `comrak::Arena` and nothing is known of it but that documents borrow it.
#[verifier::external_body]
pub struct DocumentArena<'a> {
    arena: comrak::Arena<comrak::nodes::AstNode<'a>>,
}

/// A document parsed by `comrak`: the root of its node graph, the nodes of
/// the graph in document order, and the options it was parsed under. The
/// graph lives in an arena behind `RefCell`s, so Verus sees nothing inside
/// the struct; `document_nodes`, `document_text` and `document_options` say
/// what it holds.
#[verifier::external_body]
pub struct Document<'a> {
    root: &'a comrak::nodes::AstNode<'a>,
    nodes: Vec<&'a comrak::nodes::AstNode<'a>>,
    options: comrak::Options<'static>,
}

/// The settings that a `comrak::Options` value holds.
pub uninterp spec fn options_model(options: comrak::Options<'static>) -> MarkdownOptionsView;

/// The number of callbacks that a `comrak::Options` value holds: the two URL
/// rewriters and the callback for broken links.
pub uninterp spec fn options_callbacks(options: comrak::Options<'static>) -> nat;

/// The values of the nodes of `doc`, in document order.
pub uninterp spec fn document_nodes(doc: Document<'_>) -> Seq<ElementView>;

/// The text that `doc` was parsed from.
pub uninterp spec fn document_text(doc: Document<'_>) -> Seq<char>;

/// The settings that `doc` was parsed under.
pub uninterp spec fn document_options(doc: Document<'_>) -> MarkdownOptionsView;

/// The values of the nodes that `comrak::parse_document` makes of `text`
/// under `options`, in document order.
pub uninterp spec fn parsed_nodes(text: Seq<char>, options: MarkdownOptionsView) -> Seq<
    ElementView,
>;

/// What `comrak::format_html_with_plugins` writes for the document that was
/// parsed from `text` under `options` and now holds `nodes`: the bytes, or the
/// failure it reports, in words. It stands for the serializer's output only
/// under options with `renders_alike`.
pub uninterp spec fn rendered_html(
    text: Seq<char>,
    options: MarkdownOptionsView,
    nodes: Seq<ElementView>,
) -> Result<Seq<u8>, Seq<char>>;

/// Calls `comrak::Options::default`, which is derived: the result holds no
/// callback. Nothing is claimed of its settings: each part of them is set
/// before it is used.
#[verifier::external_body]
fn new_options() -> (options: comrak::Options<'static>)
    ensures
        options_callbacks(options) == 0,
{
    comrak::Options::default()
}

/// Writes `s` into the `extension` field of `options`, field by field, with
/// no URL rewriter. The other two fields stay as they are.
#[verifier::external_body]
fn set_extension(options: &mut comrak::Options<'static>, s: &ExtensionSettings)
    ensures
        options_model(*final(options)) == (MarkdownOptionsView {
            extension: s@,
            ..options_model(*old(options))
        }),
        options_callbacks(*final(options)) <= options_callbacks(*old(options)),
{
    options.extension = comrak::ExtensionOptions {
        strikethrough: s.strikethrough, tagfilter: s.tagfilter, table: s.table,
        autolink: s.autolink, tasklist: s.tasklist, superscript: s.superscript,
        header_ids: s.header_ids.clone(), footnotes: s.footnotes,
        description_lists: s.description_lists,
        front_matter_delimiter: s.front_matter_delimiter.clone(),
        multiline_block_quotes: s.multiline_block_quotes, alerts: s.alerts,
        math_dollars: s.math_dollars, math_code: s.math_code, shortcodes: s.shortcodes,
        wikilinks_title_after_pipe: s.wikilinks_title_after_pipe,
        wikilinks_title_before_pipe: s.wikilinks_title_before_pipe,
        underline: s.underline, subscript: s.subscript, spoiler: s.spoiler,
        greentext: s.greentext, image_url_rewriter: None, link_url_rewriter: None,
    };
}

/// Writes `s` into the `parse` field of `options`, field by field, with no
/// callback for broken links. The other two fields stay as they are.
#[verifier::external_body]
fn set_parse(options: &mut comrak::Options<'static>, s: &ParseSettings)
    ensures
        options_model(*final(options)) == (MarkdownOptionsView {
            parse: s@,
            ..options_model(*old(options))
        }),
        options_callbacks(*final(options)) <= options_callbacks(*old(options)),
{
    options.parse = comrak::ParseOptions {
        smart: s.smart,
        default_info_string: s.default_info_string.clone(),
        relaxed_tasklist_matching: s.relaxed_tasklist_matching,
        relaxed_autolinks: s.relaxed_autolinks,
        broken_link_callback: None,
    };
}

/// Writes `s` into the `render` field of `options`, field by field. The
/// other two fields stay as they are.
#[verifier::external_body]
fn set_render(options: &mut comrak::Options<'static>, s: &RenderSettings)
    ensures
        options_model(*final(options)) == (MarkdownOptionsView {
            render: *s,
            ..options_model(*old(options))
        }),
        options_callbacks(*final(options)) == options_callbacks(*old(options)),
{
    options.render = comrak::RenderOptions {
        hardbreaks: s.hardbreaks, github_pre_lang: s.github_pre_lang,
        full_info_string: s.full_info_string, width: s.width, unsafe_: s.unsafe_,
        escape: s.escape, sourcepos: s.sourcepos, ol_width: s.ol_width,
        list_style: match s.list_style {
            ListStyle::Dash => comrak::ListStyleType::Dash,
            ListStyle::Plus => comrak::ListStyleType::Plus,
            ListStyle::Star => comrak::ListStyleType::Star,
        },
        experimental_inline_sourcepos: s.experimental_inline_sourcepos,
        escaped_char_spans: s.escaped_char_spans, ignore_setext: s.ignore_setext,
        ignore_empty_links: s.ignore_empty_links, gfm_quirks: s.gfm_quirks,
        prefer_fenced: s.prefer_fenced, figure_with_caption: s.figure_with_caption,
        tasklist_classes: s.tasklist_classes,
    };
}

/// Calls `comrak::Arena::new`: an empty arena for the nodes of one document.
#[verifier::external_body]
fn new_arena<'a>() -> DocumentArena<'a> {
    DocumentArena { arena: comrak::Arena::new() }
}

/// Calls `comrak::parse_document` on `text` under `options`, and walks the
/// graph once with `descendants` to list its nodes in document order. The
/// contract gives the node values a name: without a callback the graph
/// depends on `text` and the settings alone.
#[verifier::external_body]
fn parse<'a>(
    arena: &'a DocumentArena<'a>,
    text: &str,
    options: comrak::Options<'static>,
) -> (doc: Document<'a>)
    requires
        options_callbacks(options) == 0,
    ensures
        document_text(doc) == text@,
        document_options(doc) == options_model(options),
        document_nodes(doc) == parsed_nodes(text@, options_model(options)),
{
    let root = comrak::parse_document(&arena.arena, text, &options);
    Document { root, nodes: root.descendants().collect(), options }
}

/// The number of nodes of `doc`: the length of the list that `parse` made
/// with `descendants`.
#[verifier::external_body]
fn node_count(doc: &Document<'_>) -> (count: usize)
    ensures
        count == document_nodes(*doc).len(),
{
    doc.nodes.len()
}

/// Reads the value of the node at `index` through `RefCell::borrow`: a
/// `NodeValue::Math`, `NodeValue::HtmlBlock` or `NodeValue::HtmlInline` with
/// a copy of its fields, any other variant as `Other`.
#[verifier::external_body]
fn element_at(doc: &Document<'_>, index: usize) -> (element: Element)
    requires
        index < document_nodes(*doc).len(),
    ensures
        element@ == document_nodes(*doc)[index as int],
{
    match doc.nodes[index].data.borrow().value {
        comrak::nodes::NodeValue::Math(ref math) => Element::Math {
            display_math: math.display_math,
            literal: math.literal.clone(),
        },
        comrak::nodes::NodeValue::HtmlBlock(ref block) => Element::HtmlBlock {
            block_type: block.block_type,
            literal: block.literal.clone(),
        },
        comrak::nodes::NodeValue::HtmlInline(ref literal) => Element::HtmlInline {
            literal: literal.clone(),
        },
        _ => Element::Other,
    }
}

/// Where the node at `index` is a `NodeValue::Math`, moves its literal out
/// with `std::mem::take`, which leaves the node's literal empty, and hands
/// it back with the node's `display_math` flag. Any other node is left as it
/// is.
#[verifier::external_body]
fn take_math(doc: &mut Document<'_>, index: usize) -> (math: Option<(bool, String)>)
    requires
        index < document_nodes(*old(doc)).len(),
    ensures
        document_text(*final(doc)) == document_text(*old(doc)),
        document_options(*final(doc)) == document_options(*old(doc)),
        match document_nodes(*old(doc))[index as int] {
            ElementView::Math { display_math, literal } => {
                &&& math is Some
                &&& math.unwrap().0 == display_math
                &&& math.unwrap().1@ == literal
                &&& document_nodes(*final(doc)) == document_nodes(*old(doc)).update(
                    index as int,
                    ElementView::Math { display_math, literal: Seq::empty() },
                )
            },
            _ => math is None && document_nodes(*final(doc)) == document_nodes(*old(doc)),
        },
{
    match doc.nodes[index].data.borrow_mut().value {
        comrak::nodes::NodeValue::Math(ref mut math) => Some(
            (math.display_math, std::mem::take(&mut math.literal)),
        ),
        _ => None,
    }
}

/// Replaces the value of the math node at `index` by a
/// `NodeValue::HtmlBlock` of the given type and content. The graph's links
/// are not touched. Only a math node is admitted: it holds no children, and
/// the serializer, which walks the children of every node whatever its
/// value, panics on children under a parent that is not theirs.
#[verifier::external_body]
fn put_html_block(doc: &mut Document<'_>, index: usize, block_type: u8, literal: String)
    requires
        index < document_nodes(*old(doc)).len(),
        document_nodes(*old(doc))[index as int] is Math,
    ensures
        document_text(*final(doc)) == document_text(*old(doc)),
        document_options(*final(doc)) == document_options(*old(doc)),
        document_nodes(*final(doc)) == document_nodes(*old(doc)).update(
            index as int,
            ElementView::HtmlBlock { block_type, literal: literal@ },
        ),
{
    doc.nodes[index].data.borrow_mut().value = comrak::nodes::NodeValue::HtmlBlock(
        comrak::nodes::NodeHtmlBlock { block_type, literal },
    );
}

/// Replaces the value of the math node at `index` by a
/// `NodeValue::HtmlInline` of the given content. The graph's links are not
/// touched. Only a math node is admitted, as for `put_html_block`.
#[verifier::external_body]
fn put_html_inline(doc: &mut Document<'_>, index: usize, literal: String)
    requires
        index < document_nodes(*old(doc)).len(),
        document_nodes(*old(doc))[index as int] is Math,
    ensures
        document_text(*final(doc)) == document_text(*old(doc)),
        document_options(*final(doc)) == document_options(*old(doc)),
        document_nodes(*final(doc)) == document_nodes(*old(doc)).update(
            index as int,
            ElementView::HtmlInline { literal: literal@ },
        ),
{
    doc.nodes[index].data.borrow_mut().value = comrak::nodes::NodeValue::HtmlInline(literal);
}

/// Whether the serializer writes the same bytes for the same document on
/// every run. It writes the attributes of a fenced code block's `code` tag in
/// the order a hash map yields them, so it does only where that tag gets one
/// attribute at most: the language goes to the `pre` tag, or no info string
/// is written out.
pub open spec fn renders_alike(options: MarkdownOptionsView) -> bool {
    options.render.github_pre_lang || !options.render.full_info_string
}

/// Calls `comrak::format_html_with_plugins` on the document, under the
/// options it was parsed with and with a `SyntectAdapter` without a theme as
/// the highlighter of fenced code. The bytes written come back, or the text
/// of the `io::Error` that the call reports. Where the options make the
/// serializer write alike on every run the contract names the outcome; of
/// any other run it claims nothing.
#[verifier::external_body]
fn format_html(doc: &Document<'_>) -> (html: Result<Vec<u8>, String>)
    ensures
        renders_alike(document_options(*doc)) ==> match html {
            Ok(bytes) => rendered_html(
                document_text(*doc),
                document_options(*doc),
                document_nodes(*doc),
            ) == Ok::<Seq<u8>, Seq<char>>(bytes@),
            Err(detail) => rendered_html(
                document_text(*doc),
                document_options(*doc),
                document_nodes(*doc),
            ) == Err::<Seq<u8>, Seq<char>>(detail@),
        },
{
    let syntect = comrak::plugins::syntect::SyntectAdapter::new(None);
    let mut plugins = comrak::Plugins::default();
    plugins.render.codefence_syntax_highlighter = Some(&syntect);
    let mut output = Vec::new();
    match comrak::format_html_with_plugins(doc.root, &doc.options, &mut output, &plugins) {
        Ok(()) => Ok(output),
        Err(error) => Err(error.to_string()),
    }
}

/// The values of a list of elements, one for one.
pub open spec fn element_views(elements: Seq<Element>) -> Seq<ElementView> {
    Seq::new(elements.len(), |i: int| elements[i]@)
}

/// The HTML of the document written as `text`: parsed under `options`, its
/// math nodes rewritten, then serialized. `Err` holds the serializer's
/// failure in words.
pub open spec fn document_html(text: Seq<char>, options: MarkdownOptionsView) -> Result<
    Seq<u8>,
    Seq<char>,
> {
    rendered_html(text, options, rewritten(parsed_nodes(text, options)))
}

/// Builds the `comrak` options that hold `options` and no callback.
fn comrak_options(options: &MarkdownOptions) -> (built: comrak::Options<'static>)
    ensures
        options_model(built) == options@,
        options_callbacks(built) == 0,
{
    let mut built = new_options();
    set_extension(&mut built, &options.extension);
    set_parse(&mut built, &options.parse);
    set_render(&mut built, &options.render);
    built
}

/// The math-node rewrite: visits every node of `doc` in document order and
/// replaces each math node by raw HTML with the same content, a block for
/// display math and an inline otherwise. No other node is touched.
pub fn rewrite_math(doc: &mut Document<'_>)
    ensures
        document_nodes(*final(doc)) == rewritten(document_nodes(*old(doc))),
        document_text(*final(doc)) == document_text(*old(doc)),
        document_options(*final(doc)) == document_options(*old(doc)),
{
    let ghost before = *doc;
    let count = node_count(doc);
    let mut i: usize = 0;
    while i < count
        invariant
            i <= count,
            count == document_nodes(before).len(),
            count == document_nodes(*doc).len(),
            document_text(*doc) == document_text(before),
            document_options(*doc) == document_options(before),
            forall|j: int|
                0 <= j < i ==> #[trigger] document_nodes(*doc)[j] == rewrite_element(
                    document_nodes(before)[j],
                ),
            forall|j: int|
                i <= j < count ==> #[trigger] document_nodes(*doc)[j] == document_nodes(before)[j],
        decreases count - i,
    {
        match take_math(doc, i) {
            Some((display_math, literal)) => {
                match replacement(display_math, literal) {
                    Element::HtmlBlock { block_type, literal } => {
                        put_html_block(doc, i, block_type, literal);
                    },
                    Element::HtmlInline { literal } => {
                        put_html_inline(doc, i, literal);
                    },
                    _ => {},
                }
            },
            None => {},
        }
        i += 1;
    }
    assert(document_nodes(*doc) =~= rewritten(document_nodes(before)));
}

/// Lists the node values of `doc` in document order.
pub fn elements(doc: &Document<'_>) -> (list: Vec<Element>)
    ensures
        element_views(list@) == document_nodes(*doc),
{
    let count = node_count(doc);
    let mut list: Vec<Element> = Vec::new();
    let mut i: usize = 0;
    while i < count
        invariant
            i <= count,
            count == document_nodes(*doc).len(),
            list@.len() == i,
            forall|j: int| 0 <= j < i ==> (#[trigger] list@[j])@ == document_nodes(*doc)[j],
        decreases count - i,
    {
        list.push(element_at(doc, i));
        i += 1;
    }
    assert(element_views(list@) =~= document_nodes(*doc));
    list
}

/// An empty arena for the nodes of one document.
pub fn arena<'a>() -> DocumentArena<'a> {
    new_arena()
}

/// Parses `text` under `options` into a document whose nodes live in
/// `arena`.
pub fn parse_markdown<'a>(arena: &'a DocumentArena<'a>, text: &str, options: &MarkdownOptions) -> (doc:
    Document<'a>)
    ensures
        document_text(doc) == text@,
        document_options(doc) == options@,
        document_nodes(doc) == parsed_nodes(text@, options@),
{
    parse(arena, text, comrak_options(options))
}

/// Serializes `doc` to HTML under the options it was parsed with. Under
/// options that let the serializer write in an order of its own, the result
/// is one of the serializations it may write.
pub fn serialize(doc: &Document<'_>) -> (html: Result<Vec<u8>, String>)
    ensures
        renders_alike(document_options(*doc)) ==> match html {
            Ok(bytes) => rendered_html(
                document_text(*doc),
                document_options(*doc),
                document_nodes(*doc),
            ) == Ok::<Seq<u8>, Seq<char>>(bytes@),
            Err(detail) => rendered_html(
                document_text(*doc),
                document_options(*doc),
                document_nodes(*doc),
            ) == Err::<Seq<u8>, Seq<char>>(detail@),
        },
{
    format_html(doc)
}

/// Parses `text` under `options` and lists the node values of the document,
/// in document order.
pub fn parsed_elements(text: &str, options: &MarkdownOptions) -> (list: Vec<Element>)
    ensures
        element_views(list@) == parsed_nodes(text@, options@),
{
    let arena = arena();
    let doc = parse_markdown(&arena, text, options);
    elements(&doc)
}

/// Parses `text` under `options`, rewrites the math nodes and lists the node
/// values of the document, in document order.
pub fn rewritten_elements(text: &str, options: &MarkdownOptions) -> (list: Vec<Element>)
    ensures
        element_views(list@) == rewritten(parsed_nodes(text@, options@)),
{
    let arena = arena();
    let mut doc = parse_markdown(&arena, text, options);
    rewrite_math(&mut doc);
    elements(&doc)
}

/// Renders the document written as `text` to HTML: parses it under
/// `options`, rewrites its math nodes and serializes the result. Under
/// options that let the serializer write in an order of its own, the result
/// is one of the serializations it may write.
pub fn render(text: &str, options: &MarkdownOptions) -> (html: Result<Vec<u8>, String>)
    ensures
        renders_alike(options@) ==> match html {
            Ok(bytes) => document_html(text@, options@) == Ok::<Seq<u8>, Seq<char>>(bytes@),
            Err(detail) => document_html(text@, options@) == Err::<Seq<u8>, Seq<char>>(detail@),
        },
{
    let arena = arena();
    let mut doc = parse_markdown(&arena, text, options);
    rewrite_math(&mut doc);
    serialize(&doc)
}

} // verus!
