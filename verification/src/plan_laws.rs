//! What holds of every plan: the transformer visits each node of the tree
//! once, a folder before what it holds, and asks for one output per node.

use crate::document::document_html;
use crate::file_system::NodeView;
use crate::paths::mirrored;
use crate::paths::rendered;
use crate::posts::plan_children;
use crate::posts::plan_node;
use crate::posts::site_dialect;
use crate::posts::OutputView;
use vstd::prelude::*;

verus! {

/// The nodes of a tree in the order the transformer visits them: a folder,
/// then what its children hold, child by child.
pub open spec fn visit_order(node: NodeView) -> Seq<NodeView>
    decreases node,
{
    match node {
        NodeView::File { .. } => seq![node],
        NodeView::Folder { children, .. } => seq![node] + visit_order_among(
            children,
            children.len(),
        ),
    }
}

/// The nodes of the first `count` trees in visiting order.
pub open spec fn visit_order_among(children: Seq<NodeView>, count: nat) -> Seq<NodeView>
    decreases children, count,
{
    if count == 0 || count > children.len() {
        Seq::empty()
    } else {
        visit_order_among(children, (count - 1) as nat) + visit_order(children[count - 1])
    }
}

/// The one output of a node: for a folder the directory at its mirrored
/// path, for a file the document rendered from its data, at its mirrored
/// path with the extension `html`. `None` where the node's path does not lie
/// under the input root or the serializer fails.
pub open spec fn output_of(node: NodeView, input: Seq<u8>, output: Seq<u8>) -> Option<
    OutputView,
> {
    match node {
        NodeView::Folder { path, .. } => match mirrored(path, input, output) {
            Some(target) => Some(OutputView::Directory { path: target }),
            None => None,
        },
        NodeView::File { path, data, .. } => match rendered(path, input, output) {
            Some(target) => match document_html(data, site_dialect()) {
                Ok(html) => Some(OutputView::Document { path: target, html }),
                Err(_) => None,
            },
            None => None,
        },
    }
}

/// Whether `outputs` holds the one output of each node of `order`, in order.
pub open spec fn one_for_each(
    outputs: Seq<OutputView>,
    order: Seq<NodeView>,
    input: Seq<u8>,
    output: Seq<u8>,
) -> bool {
    &&& outputs.len() == order.len()
    &&& forall|i: int|
        0 <= i < order.len() ==> output_of(#[trigger] order[i], input, output) == Some(outputs[i])
}

/// Outputs that are one for each node, one list after the other, are one
/// for each node of the two orders joined.
proof fn lemma_one_for_each_joined(
    first: Seq<OutputView>,
    first_order: Seq<NodeView>,
    second: Seq<OutputView>,
    second_order: Seq<NodeView>,
    input: Seq<u8>,
    output: Seq<u8>,
)
    requires
        one_for_each(first, first_order, input, output),
        one_for_each(second, second_order, input, output),
    ensures
        one_for_each(first + second, first_order + second_order, input, output),
{
    let outputs = first + second;
    let order = first_order + second_order;
    assert forall|i: int| 0 <= i < order.len() implies output_of(
        #[trigger] order[i],
        input,
        output,
    ) == Some(outputs[i]) by {
        if i < first_order.len() {
            assert(order[i] == first_order[i]);
            assert(outputs[i] == first[i]);
        } else {
            assert(order[i] == second_order[i - first_order.len()]);
            assert(outputs[i] == second[i - first.len()]);
        }
    }
}

/// No node is visited twice and none is skipped: a plan that does not fail
/// holds exactly one output for each node of the tree, in visiting order.
pub proof fn lemma_plan_visits_every_node_once(
    node: NodeView,
    input: Seq<u8>,
    output: Seq<u8>,
)
    requires
        plan_node(node, input, output).failure is None,
    ensures
        one_for_each(plan_node(node, input, output).outputs, visit_order(node), input, output),
    decreases node,
{
    match node {
        NodeView::File { .. } => {},
        NodeView::Folder { path, children, .. } => {
            let target = mirrored(path, input, output).unwrap();
            lemma_plan_visits_children_once(children, children.len(), input, output);
            lemma_one_for_each_joined(
                seq![OutputView::Directory { path: target }],
                seq![node],
                plan_children(children, children.len(), input, output).outputs,
                visit_order_among(children, children.len()),
                input,
                output,
            );
        },
    }
}

/// The same of the first `count` children of a folder.
pub proof fn lemma_plan_visits_children_once(
    children: Seq<NodeView>,
    count: nat,
    input: Seq<u8>,
    output: Seq<u8>,
)
    requires
        count <= children.len(),
        plan_children(children, count, input, output).failure is None,
    ensures
        one_for_each(
            plan_children(children, count, input, output).outputs,
            visit_order_among(children, count),
            input,
            output,
        ),
    decreases children, count,
{
    if count > 0 {
        let before = (count - 1) as nat;
        lemma_plan_visits_children_once(children, before, input, output);
        lemma_plan_visits_every_node_once(children[count - 1], input, output);
        lemma_one_for_each_joined(
            plan_children(children, before, input, output).outputs,
            visit_order_among(children, before),
            plan_node(children[count - 1], input, output).outputs,
            visit_order(children[count - 1]),
            input,
            output,
        );
    }
}

} // verus!
