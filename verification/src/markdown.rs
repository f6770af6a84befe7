//! Markdown documents: parsing and HTML serialization by `comrak`, and the
//! rewrite of math nodes into raw HTML in between.

use vstd::prelude::*;

verus! {

/// How bullet lists are written out.
#[derive(Clone, Copy, Debug, PartialEq, Eq, Structural)]
pub enum ListStyle {
    Dash,
    Plus,
    Star,
}

/// Which syntax extensions the parser recognizes.
#[derive(Debug)]
pub struct ExtensionSettings {
    pub strikethrough: bool,
    pub tagfilter: bool,
    pub table: bool,
    pub autolink: bool,
    pub tasklist: bool,
    pub superscript: bool,
    pub header_ids: Option<String>,
    pub footnotes: bool,
    pub description_lists: bool,
    pub front_matter_delimiter: Option<String>,
    pub multiline_block_quotes: bool,
    pub alerts: bool,
    pub math_dollars: bool,
    pub math_code: bool,
    pub shortcodes: bool,
    pub wikilinks_title_after_pipe: bool,
    pub wikilinks_title_before_pipe: bool,
    pub underline: bool,
    pub subscript: bool,
    pub spoiler: bool,
    pub greentext: bool,
}

/// How the parser reads.
#[derive(Debug)]
pub struct ParseSettings {
    pub smart: bool,
    pub default_info_string: Option<String>,
    pub relaxed_tasklist_matching: bool,
    pub relaxed_autolinks: bool,
}

/// How the serializer writes.
#[derive(Clone, Copy, Debug)]
pub struct RenderSettings {
    pub hardbreaks: bool,
    pub github_pre_lang: bool,
    pub full_info_string: bool,
    pub width: usize,
    pub unsafe_: bool,
    pub escape: bool,
    pub list_style: ListStyle,
    pub sourcepos: bool,
    pub experimental_inline_sourcepos: bool,
    pub escaped_char_spans: bool,
    pub ignore_setext: bool,
    pub ignore_empty_links: bool,
    pub gfm_quirks: bool,
    pub prefer_fenced: bool,
    pub figure_with_caption: bool,
    pub tasklist_classes: bool,
    pub ol_width: usize,
}

/// The configuration bundle of the markup parser and serializer.
#[derive(Debug)]
pub struct MarkdownOptions {
    pub extension: ExtensionSettings,
    pub parse: ParseSettings,
    pub render: RenderSettings,
}

/// The mathematical value of [`ExtensionSettings`].
pub struct ExtensionSettingsView {
    pub strikethrough: bool,
    pub tagfilter: bool,
    pub table: bool,
    pub autolink: bool,
    pub tasklist: bool,
    pub superscript: bool,
    pub header_ids: Option<Seq<char>>,
    pub footnotes: bool,
    pub description_lists: bool,
    pub front_matter_delimiter: Option<Seq<char>>,
    pub multiline_block_quotes: bool,
    pub alerts: bool,
    pub math_dollars: bool,
    pub math_code: bool,
    pub shortcodes: bool,
    pub wikilinks_title_after_pipe: bool,
    pub wikilinks_title_before_pipe: bool,
    pub underline: bool,
    pub subscript: bool,
    pub spoiler: bool,
    pub greentext: bool,
}

/// The mathematical value of [`ParseSettings`].
pub struct ParseSettingsView {
    pub smart: bool,
    pub default_info_string: Option<Seq<char>>,
    pub relaxed_tasklist_matching: bool,
    pub relaxed_autolinks: bool,
}

/// The mathematical value of [`MarkdownOptions`].
pub struct MarkdownOptionsView {
    pub extension: ExtensionSettingsView,
    pub parse: ParseSettingsView,
    pub render: RenderSettings,
}

/// The value of an optional text.
pub open spec fn text_of(text: Option<String>) -> Option<Seq<char>> {
    match text {
        Some(text) => Some(text@),
        None => None,
    }
}

impl View for ExtensionSettings {
    type V = ExtensionSettingsView;

    open spec fn view(&self) -> ExtensionSettingsView {
        ExtensionSettingsView {
            strikethrough: self.strikethrough,
            tagfilter: self.tagfilter,
            table: self.table,
            autolink: self.autolink,
            tasklist: self.tasklist,
            superscript: self.superscript,
            header_ids: text_of(self.header_ids),
            footnotes: self.footnotes,
            description_lists: self.description_lists,
            front_matter_delimiter: text_of(self.front_matter_delimiter),
            multiline_block_quotes: self.multiline_block_quotes,
            alerts: self.alerts,
            math_dollars: self.math_dollars,
            math_code: self.math_code,
            shortcodes: self.shortcodes,
            wikilinks_title_after_pipe: self.wikilinks_title_after_pipe,
            wikilinks_title_before_pipe: self.wikilinks_title_before_pipe,
            underline: self.underline,
            subscript: self.subscript,
            spoiler: self.spoiler,
            greentext: self.greentext,
        }
    }
}

impl View for ParseSettings {
    type V = ParseSettingsView;

    open spec fn view(&self) -> ParseSettingsView {
        ParseSettingsView {
            smart: self.smart,
            default_info_string: text_of(self.default_info_string),
            relaxed_tasklist_matching: self.relaxed_tasklist_matching,
            relaxed_autolinks: self.relaxed_autolinks,
        }
    }
}

impl View for MarkdownOptions {
    type V = MarkdownOptionsView;

    open spec fn view(&self) -> MarkdownOptionsView {
        MarkdownOptionsView {
            extension: self.extension@,
            parse: self.parse@,
            render: self.render,
        }
    }
}

/// One node value of a parsed document, as far as the math rewrite reads and
/// writes it.
#[derive(Debug, PartialEq, Eq)]
pub enum Element {
    /// A mathematical expression: display style or inline, and its source.
    Math { display_math: bool, literal: String },
    /// Raw HTML that stands as a block.
    HtmlBlock { block_type: u8, literal: String },
    /// Raw HTML inside a line.
    HtmlInline { literal: String },
    /// Any other node.
    Other,
}

/// The mathematical value of an [`Element`].
pub enum ElementView {
    Math { display_math: bool, literal: Seq<char> },
    HtmlBlock { block_type: u8, literal: Seq<char> },
    HtmlInline { literal: Seq<char> },
    Other,
}

impl View for Element {
    type V = ElementView;

    open spec fn view(&self) -> ElementView {
        match self {
            Element::Math { display_math, literal } => ElementView::Math {
                display_math: *display_math,
                literal: literal@,
            },
            Element::HtmlBlock { block_type, literal } => ElementView::HtmlBlock {
                block_type: *block_type,
                literal: literal@,
            },
            Element::HtmlInline { literal } => ElementView::HtmlInline { literal: literal@ },
            Element::Other => ElementView::Other,
        }
    }
}

/// The raw-HTML node that takes the place of a math node: a block for display
/// math, an inline for the rest, each with the math source as its content.
pub open spec fn replacement_of(display_math: bool, literal: Seq<char>) -> ElementView {
    if display_math {
        ElementView::HtmlBlock { block_type: 0, literal }
    } else {
        ElementView::HtmlInline { literal }
    }
}

/// What the rewrite makes of one node: a math node becomes its replacement,
/// any other node stays as it is.
pub open spec fn rewrite_element(element: ElementView) -> ElementView {
    match element {
        ElementView::Math { display_math, literal } => replacement_of(display_math, literal),
        other => other,
    }
}

/// What the rewrite makes of a document's nodes: each node rewritten, in
/// place.
pub open spec fn rewritten(nodes: Seq<ElementView>) -> Seq<ElementView> {
    Seq::new(nodes.len(), |i: int| rewrite_element(nodes[i]))
}

/// The raw-HTML node that takes the place of a math node.
pub fn replacement(display_math: bool, literal: String) -> (element: Element)
    ensures
        element@ == replacement_of(display_math, literal@),
{
    if display_math {
        Element::HtmlBlock { block_type: 0, literal }
    } else {
        Element::HtmlInline { literal }
    }
}

/// A rewritten document has as many nodes as before and holds no math node.
/// Where the document held a math node it holds that node's replacement: raw
/// HTML with the math source as content, empty where the source was empty, a
/// block for display math and an inline otherwise. Every other node is as it
/// was.
pub proof fn lemma_rewritten_is_free_of_math(nodes: Seq<ElementView>)
    ensures
        rewritten(nodes).len() == nodes.len(),
        forall|i: int| 0 <= i < nodes.len() ==> !(#[trigger] rewritten(nodes)[i] is Math),
        forall|i: int|
            0 <= i < nodes.len() ==> (#[trigger] nodes[i] matches ElementView::Math {
                display_math,
                literal,
            } ==> {
                &&& rewritten(nodes)[i] == replacement_of(display_math, literal)
                &&& display_math ==> rewritten(nodes)[i] == (ElementView::HtmlBlock {
                    block_type: 0,
                    literal,
                })
                &&& !display_math ==> rewritten(nodes)[i] == (ElementView::HtmlInline { literal })
            }),
        forall|i: int|
            0 <= i < nodes.len() && !(nodes[i] is Math) ==> #[trigger] rewritten(nodes)[i]
                == nodes[i],
{
}

} // verus!
