//! The document transformer: from the scanned tree to the directories and
//! HTML documents of the finished site, in the order they are to be written.

use crate::config::Config;
use crate::document::document_html;
use crate::document::render;
use crate::error::ErrorKind;
use crate::error::SiteError;
use crate::error::SiteErrorView;
use crate::file_system::lemma_folder_view;
use crate::file_system::views;
use crate::file_system::Node;
use crate::file_system::NodeView;
use crate::file_system::SiteData;
use crate::markdown::ExtensionSettings;
use crate::markdown::ExtensionSettingsView;
use crate::markdown::ListStyle;
use crate::markdown::MarkdownOptions;
use crate::markdown::MarkdownOptionsView;
use crate::markdown::ParseSettings;
use crate::markdown::ParseSettingsView;
use crate::markdown::RenderSettings;
use crate::paths::mirror;
use crate::paths::mirrored;
use crate::paths::path_units;
use crate::paths::render_target;
use crate::paths::rendered;
use std::path::PathBuf;
use vstd::prelude::*;

verus! {

/// One thing to write under the output root.
#[derive(Debug, PartialEq, Eq)]
pub enum Output {
    /// A directory to create, with all its missing ancestors; one that is
    /// there already is left as it is.
    Directory { path: PathBuf },
    /// A file to create or truncate, and the bytes to write to it.
    Document { path: PathBuf, html: Vec<u8> },
}

/// The mathematical value of an [`Output`].
pub enum OutputView {
    Directory { path: Seq<u8> },
    Document { path: Seq<u8>, html: Seq<u8> },
}

impl View for Output {
    type V = OutputView;

    open spec fn view(&self) -> OutputView {
        match self {
            Output::Directory { path } => OutputView::Directory { path: path_units(*path) },
            Output::Document { path, html } => OutputView::Document {
                path: path_units(*path),
                html: html@,
            },
        }
    }
}

/// The values of a list of outputs, one for one.
pub open spec fn output_views(outputs: Seq<Output>) -> Seq<OutputView> {
    Seq::new(outputs.len(), |i: int| outputs[i]@)
}

/// What a run of the transformer asks to be written, in order, and the error
/// that ended the run, if one did. The outputs before a failure are still to
/// be written.
#[derive(Debug, PartialEq, Eq)]
pub struct Plan {
    pub outputs: Vec<Output>,
    pub failure: Option<SiteError>,
}

/// The mathematical value of a [`Plan`].
pub struct PlanView {
    pub outputs: Seq<OutputView>,
    pub failure: Option<SiteErrorView>,
}

impl View for Plan {
    type V = PlanView;

    open spec fn view(&self) -> PlanView {
        PlanView {
            outputs: output_views(self.outputs@),
            failure: match self.failure {
                Some(error) => Some(error@),
                None => None,
            },
        }
    }
}

/// The options every document of a site is parsed and serialized under.
pub open spec fn site_dialect() -> MarkdownOptionsView {
    MarkdownOptionsView {
        extension: ExtensionSettingsView {
            strikethrough: true,
            tagfilter: false,
            table: true,
            autolink: true,
            tasklist: true,
            superscript: true,
            header_ids: Some("header-"@),
            footnotes: true,
            description_lists: true,
            front_matter_delimiter: Some("---"@),
            multiline_block_quotes: true,
            alerts: true,
            math_dollars: true,
            math_code: true,
            shortcodes: true,
            wikilinks_title_after_pipe: false,
            wikilinks_title_before_pipe: true,
            underline: true,
            subscript: true,
            spoiler: true,
            greentext: true,
        },
        parse: ParseSettingsView {
            smart: true,
            default_info_string: None,
            relaxed_tasklist_matching: true,
            relaxed_autolinks: false,
        },
        render: RenderSettings {
            hardbreaks: false,
            github_pre_lang: true,
            full_info_string: true,
            width: 0,
            unsafe_: true,
            escape: false,
            list_style: ListStyle::Dash,
            sourcepos: false,
            experimental_inline_sourcepos: false,
            escaped_char_spans: true,
            ignore_setext: false,
            ignore_empty_links: true,
            gfm_quirks: true,
            prefer_fenced: true,
            figure_with_caption: true,
            tasklist_classes: true,
            ol_width: 0,
        },
    }
}

/// The cause reported for a path that does not lie under the input root.
pub open spec fn outside_detail() -> Seq<char> {
    "prefix not found"@
}

/// The plan that ends at once with `error`.
pub open spec fn failed(error: SiteErrorView) -> PlanView {
    PlanView { outputs: Seq::empty(), failure: Some(error) }
}

/// The error of a node whose path does not lie under the input root.
pub open spec fn outside_error(path: Seq<u8>) -> SiteErrorView {
    SiteErrorView { kind: ErrorKind::Io, path, detail: outside_detail() }
}

/// The plan of one file: its document, rendered from `data`, at the file's
/// mirrored path with the extension `html`.
pub open spec fn plan_file(path: Seq<u8>, data: Seq<char>, input: Seq<u8>, output: Seq<u8>)
    -> PlanView {
    match rendered(path, input, output) {
        None => failed(outside_error(path)),
        Some(target) => match document_html(data, site_dialect()) {
            Ok(html) => PlanView {
                outputs: seq![OutputView::Document { path: target, html }],
                failure: None,
            },
            Err(detail) => failed(SiteErrorView { kind: ErrorKind::Render, path, detail }),
        },
    }
}

/// The plan of a node: depth first, a folder before what it holds, children
/// in their order, ending at the first error.
pub open spec fn plan_node(node: NodeView, input: Seq<u8>, output: Seq<u8>) -> PlanView
    decreases node,
{
    match node {
        NodeView::File { name, path, data } => plan_file(path, data, input, output),
        NodeView::Folder { name, path, children } => match mirrored(path, input, output) {
            None => failed(outside_error(path)),
            Some(target) => {
                let below = plan_children(children, children.len(), input, output);
                PlanView {
                    outputs: seq![OutputView::Directory { path: target }] + below.outputs,
                    failure: below.failure,
                }
            },
        },
    }
}

/// The plan of the first `count` children, one after the other, ending at
/// the first error.
pub open spec fn plan_children(
    children: Seq<NodeView>,
    count: nat,
    input: Seq<u8>,
    output: Seq<u8>,
) -> PlanView
    decreases children, count,
{
    if count == 0 || count > children.len() {
        PlanView { outputs: Seq::empty(), failure: None }
    } else {
        let before = plan_children(children, (count - 1) as nat, input, output);
        if before.failure is Some {
            before
        } else {
            let next = plan_node(children[count - 1], input, output);
            PlanView { outputs: before.outputs + next.outputs, failure: next.failure }
        }
    }
}

/// The plan of a folder: its own directory, then the plans of its children.
pub open spec fn plan_folder(
    path: Seq<u8>,
    children: Seq<NodeView>,
    input: Seq<u8>,
    output: Seq<u8>,
) -> PlanView {
    plan_node(NodeView::Folder { name: Seq::empty(), path, children }, input, output)
}

/// A plan that has failed among the first children stays as it is.
pub proof fn lemma_plan_failure_persists(
    children: Seq<NodeView>,
    count: nat,
    more: nat,
    input: Seq<u8>,
    output: Seq<u8>,
)
    requires
        count <= more <= children.len(),
        plan_children(children, count, input, output).failure is Some,
    ensures
        plan_children(children, more, input, output) == plan_children(
            children,
            count,
            input,
            output,
        ),
    decreases more - count,
{
    if count < more {
        lemma_plan_failure_persists(children, count, (more - 1) as nat, input, output);
    }
}

/// The options every document of a site is parsed and serialized under.
pub fn markdown_options() -> (options: MarkdownOptions)
    ensures
        options@ == site_dialect(),
{
    MarkdownOptions {
        extension: ExtensionSettings {
            strikethrough: true,
            tagfilter: false,
            table: true,
            autolink: true,
            tasklist: true,
            superscript: true,
            header_ids: Some("header-".to_owned()),
            footnotes: true,
            description_lists: true,
            front_matter_delimiter: Some("---".to_owned()),
            multiline_block_quotes: true,
            alerts: true,
            math_dollars: true,
            math_code: true,
            shortcodes: true,
            wikilinks_title_after_pipe: false,
            wikilinks_title_before_pipe: true,
            underline: true,
            subscript: true,
            spoiler: true,
            greentext: true,
        },
        parse: ParseSettings {
            smart: true,
            default_info_string: None,
            relaxed_tasklist_matching: true,
            relaxed_autolinks: false,
        },
        render: RenderSettings {
            hardbreaks: false,
            github_pre_lang: true,
            full_info_string: true,
            width: 0,
            unsafe_: true,
            escape: false,
            list_style: ListStyle::Dash,
            sourcepos: false,
            experimental_inline_sourcepos: false,
            escaped_char_spans: true,
            ignore_setext: false,
            ignore_empty_links: true,
            gfm_quirks: true,
            prefer_fenced: true,
            figure_with_caption: true,
            tasklist_classes: true,
            ol_width: 0,
        },
    }
}

/// Whether `result` and the outputs added to `before` are what `plan` says.
pub open spec fn follows(
    plan: PlanView,
    before: Seq<Output>,
    after: Seq<Output>,
    result: Result<(), SiteError>,
) -> bool {
    &&& output_views(after) == output_views(before) + plan.outputs
    &&& match result {
        Ok(_) => plan.failure is None,
        Err(error) => plan.failure == Some(error@),
    }
}

/// Adds the output of one file to `outputs`: the document rendered from
/// `data`, at the file's mirrored path with the extension `html`.
pub fn file(name: &str, path: &PathBuf, data: &str, config: &Config, outputs: &mut Vec<Output>) -> (result:
    Result<(), SiteError>)
    ensures
        follows(
            plan_file(
                path_units(*path),
                data@,
                path_units(config.input_dir),
                path_units(config.output_dir),
            ),
            old(outputs)@,
            final(outputs)@,
            result,
        ),
{
    let target = match render_target(path, &config.input_dir, &config.output_dir) {
        Some(target) => target,
        None => {
            assert(output_views(outputs@) =~= output_views(outputs@) + Seq::empty());
            return Err(SiteError::new(ErrorKind::Io, path, "prefix not found"));
        },
    };
    let options = markdown_options();
    match render(data, &options) {
        Ok(html) => {
            let ghost before = outputs@;
            let output = Output::Document { path: target, html };
            outputs.push(output);
            assert(output_views(outputs@) =~= output_views(before) + seq![output@]);
            Ok(())
        },
        Err(detail) => {
            assert(output_views(outputs@) =~= output_views(outputs@) + Seq::empty());
            Err(SiteError { kind: ErrorKind::Render, path: path.clone(), detail })
        },
    }
}

/// Adds the outputs of one folder to `outputs`: its own directory, then the
/// outputs of its children in their order, up to the first error.
pub fn folder(
    name: &str,
    path: &PathBuf,
    children: &Vec<Node>,
    config: &Config,
    outputs: &mut Vec<Output>,
) -> (result: Result<(), SiteError>)
    ensures
        follows(
            plan_folder(
                path_units(*path),
                views(children@),
                path_units(config.input_dir),
                path_units(config.output_dir),
            ),
            old(outputs)@,
            final(outputs)@,
            result,
        ),
    decreases children,
{
    let ghost input = path_units(config.input_dir);
    let ghost output = path_units(config.output_dir);
    let ghost start = outputs@;
    let target = match mirror(path, &config.input_dir, &config.output_dir) {
        Some(target) => target,
        None => {
            assert(output_views(outputs@) =~= output_views(outputs@) + Seq::empty());
            return Err(SiteError::new(ErrorKind::Io, path, "prefix not found"));
        },
    };
    let ghost first = OutputView::Directory { path: path_units(target) };
    outputs.push(Output::Directory { path: target });
    assert(output_views(outputs@) =~= output_views(start) + seq![first]);
    let mut i: usize = 0;
    while i < children.len()
        invariant
            i <= children.len(),
            input == path_units(config.input_dir),
            output == path_units(config.output_dir),
            start == old(outputs)@,
            mirrored(path_units(*path), input, output) is Some,
            first == (OutputView::Directory {
                path: mirrored(path_units(*path), input, output).unwrap(),
            }),
            plan_children(views(children@), i as nat, input, output).failure is None,
            output_views(outputs@) == output_views(start) + seq![first] + plan_children(
                views(children@),
                i as nat,
                input,
                output,
            ).outputs,
        decreases children.len() - i,
    {
        let ghost before = outputs@;
        let result = node(&children[i], config, outputs);
        assert(views(children@)[i as int] == children[i as int]@);
        let ghost next = plan_node(children[i as int]@, input, output);
        assert(output_views(outputs@) =~= output_views(start) + seq![first] + plan_children(
            views(children@),
            (i + 1) as nat,
            input,
            output,
        ).outputs);
        match result {
            Ok(_) => {},
            Err(error) => {
                proof {
                    lemma_plan_failure_persists(
                        views(children@),
                        (i + 1) as nat,
                        children.len() as nat,
                        input,
                        output,
                    );
                    assert(output_views(outputs@) =~= output_views(start) + (seq![first]
                        + plan_children(
                        views(children@),
                        children.len() as nat,
                        input,
                        output,
                    ).outputs));
                }
                return Err(error);
            },
        }
        i += 1;
    }
    assert(output_views(outputs@) =~= output_views(start) + (seq![first] + plan_children(
        views(children@),
        children.len() as nat,
        input,
        output,
    ).outputs));
    Ok(())
}

/// Adds the outputs of the node `item` to `outputs`, depth first.
pub fn node(item: &Node, config: &Config, outputs: &mut Vec<Output>) -> (result: Result<
    (),
    SiteError,
>)
    ensures
        follows(
            plan_node(item@, path_units(config.input_dir), path_units(config.output_dir)),
            old(outputs)@,
            final(outputs)@,
            result,
        ),
    decreases item,
{
    match item {
        Node::Folder { name, path, children } => {
            proof {
                lemma_folder_view(*item);
            }
            folder(name.as_str(), path, children, config, outputs)
        },
        Node::File { name, path, data } => file(
            name.as_str(),
            path,
            data.as_str(),
            config,
            outputs,
        ),
    }
}

/// Create the output for the root site data struct: everything to write for
/// the scanned site, in order.
pub fn process_site_data(site: SiteData, config: &Config) -> (plan: Plan)
    ensures
        plan@ == plan_node(site.included_data@, path_units(config.input_dir), path_units(config.output_dir)),
{
    let mut outputs: Vec<Output> = Vec::new();
    assert(output_views(outputs@) =~= Seq::empty());
    let result = node(&site.included_data, config, &mut outputs);
    let ghost expected = plan_node(site.included_data@, path_units(config.input_dir), path_units(config.output_dir));
    assert(output_views(outputs@) =~= expected.outputs);
    match result {
        Ok(_) => Plan { outputs, failure: None },
        Err(error) => Plan { outputs, failure: Some(error) },
    }
}

} // verus!
