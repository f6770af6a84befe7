//! What holds of every scan: which entries of a directory tree leave a node
//! in the scanned tree, and what such a node holds.

use crate::error::SiteErrorView;
use crate::file_system::excluded;
use crate::file_system::scan_directory;
use crate::file_system::scan_entries;
use crate::file_system::scan_entry;
use crate::file_system::Contents;
use crate::file_system::Entry;
use crate::file_system::Listing;
use crate::file_system::NodeView;
use crate::paths::display_name;
use crate::paths::path_units;
use vstd::prelude::*;

verus! {

/// The root of a scanned tree is always a folder: whatever the directory
/// holds, and whether or not the scan filters, a scan that succeeds yields a
/// folder with the scanned path, named after the path's final component. An
/// empty directory yields a folder with no children.
pub proof fn lemma_scan_yields_folder(path: Seq<u8>, listing: Listing, filtered: bool)
    ensures
        match scan_directory(path, listing, filtered) {
            Ok(node) => node matches NodeView::Folder { name, path: recorded, children }
                && name == display_name(path) && recorded == path,
            Err(_) => true,
        },
        listing matches Listing::Entries(entries) && entries.len() == 0 ==> scan_directory(
            path,
            listing,
            filtered,
        ) == Ok::<NodeView, SiteErrorView>(
            NodeView::Folder { name: display_name(path), path, children: Seq::empty() },
        ),
{
}

/// Where the list `fewer` is the list `entries` without the entry at
/// `index`, and that entry contributes nothing, the two lists give the same
/// nodes and the same error.
pub proof fn lemma_passed_over_entry(
    entries: Vec<Entry>,
    fewer: Vec<Entry>,
    index: int,
    count: nat,
    filtered: bool,
)
    requires
        0 <= index < entries.len(),
        fewer@ == entries@.remove(index),
        scan_entry(entries[index], filtered) == Ok::<Option<NodeView>, SiteErrorView>(None),
        count <= entries.len(),
    ensures
        count <= index ==> scan_entries(entries, count, filtered) == scan_entries(
            fewer,
            count,
            filtered,
        ),
        count > index ==> scan_entries(entries, count, filtered) == scan_entries(
            fewer,
            (count - 1) as nat,
            filtered,
        ),
    decreases count,
{
    if count > 0 {
        lemma_passed_over_entry(entries, fewer, index, (count - 1) as nat, filtered);
        if count - 1 < index {
            assert(fewer[count - 1] == entries[count - 1]);
        } else if count - 1 > index {
            assert(fewer[count - 2] == entries[count - 1]);
        }
    }
}

/// A directory at the root whose name is in the exclusion set never appears
/// in the scanned tree: the scan of the root is the same with the directory
/// and without it, whatever the directory holds.
pub proof fn lemma_excluded_directory_leaves_no_trace(
    path: Seq<u8>,
    entries: Vec<Entry>,
    fewer: Vec<Entry>,
    index: int,
)
    requires
        0 <= index < entries.len(),
        fewer@ == entries@.remove(index),
        entries[index] matches Entry::Directory { canonical, .. } && excluded(
            display_name(path_units(canonical)),
        ),
    ensures
        scan_directory(path, Listing::Entries(entries), true) == scan_directory(
            path,
            Listing::Entries(fewer),
            true,
        ),
{
    lemma_passed_over_entry(entries, fewer, index, entries.len() as nat, true);
}

/// A file directly under the root never appears in the scanned tree: the
/// scan of the root is the same with the file and without it, whatever the
/// file holds and whether or not it can be read.
pub proof fn lemma_root_file_leaves_no_trace(
    path: Seq<u8>,
    entries: Vec<Entry>,
    fewer: Vec<Entry>,
    index: int,
)
    requires
        0 <= index < entries.len(),
        fewer@ == entries@.remove(index),
        entries[index] is File,
    ensures
        scan_directory(path, Listing::Entries(entries), true) == scan_directory(
            path,
            Listing::Entries(fewer),
            true,
        ),
{
    lemma_passed_over_entry(entries, fewer, index, entries.len() as nat, true);
}

/// Below the root every entry leaves exactly one node, at its own place: a
/// scan that succeeds has one node for each entry, in the order of the
/// listing.
pub proof fn lemma_nested_entries_all_appear(entries: Vec<Entry>, count: nat)
    requires
        count <= entries.len(),
        scan_entries(entries, count, false) is Ok,
    ensures
        scan_entries(entries, count, false)->Ok_0.len() == count,
        forall|i: int|
            0 <= i < count ==> scan_entry(#[trigger] entries[i], false) == Ok::<
                Option<NodeView>,
                SiteErrorView,
            >(Some(scan_entries(entries, count, false)->Ok_0[i])),
    decreases count,
{
    if count > 0 {
        lemma_nested_entries_all_appear(entries, (count - 1) as nat);
    }
}

/// Whether `node` is the exact image of the directory at `path` that holds
/// `listing`: a folder with the directory's path and name, holding one node
/// for each entry, in order, each the exact image of its entry.
pub open spec fn mirrors(node: NodeView, path: Seq<u8>, listing: Listing) -> bool
    decreases listing,
{
    &&& listing matches Listing::Entries(entries)
    &&& node matches NodeView::Folder { name, path: recorded, children }
    &&& name == display_name(path)
    &&& recorded == path
    &&& children.len() == entries.len()
    &&& forall|i: int|
        0 <= i < entries.len() ==> mirrors_entry(#[trigger] children[i], entries[i])
}

/// Whether `node` is the exact image of `entry`: for a file, a file node
/// with the entry's canonical path, the final component of that path as
/// name, and the file's exact text as data; for a directory, the image of
/// the directory at its canonical path.
pub open spec fn mirrors_entry(node: NodeView, entry: Entry) -> bool
    decreases entry,
{
    match entry {
        Entry::File { canonical, contents } => {
            &&& contents matches Contents::Text(text)
            &&& node == (NodeView::File {
                name: display_name(path_units(canonical)),
                path: path_units(canonical),
                data: text@,
            })
        },
        Entry::Directory { canonical, listing } => mirrors(node, path_units(canonical), listing),
        Entry::Unresolved { .. } => false,
    }
}

/// Below the root the scanned tree is the exact image of the directory tree,
/// at every depth: every directory is there as a folder, whatever its name,
/// every file is there as a file node, and the data of every file node is
/// the text of its file, unchanged.
pub proof fn lemma_scan_mirrors(path: Seq<u8>, listing: Listing)
    requires
        scan_directory(path, listing, false) is Ok,
    ensures
        mirrors(scan_directory(path, listing, false)->Ok_0, path, listing),
    decreases listing,
{
    let node = scan_directory(path, listing, false)->Ok_0;
    let entries = listing->Entries_0;
    lemma_nested_entries_all_appear(entries, entries.len() as nat);
    let children = scan_entries(entries, entries.len() as nat, false)->Ok_0;
    assert forall|i: int| 0 <= i < entries.len() implies mirrors_entry(
        #[trigger] children[i],
        entries[i],
    ) by {
        match entries[i] {
            Entry::Directory { canonical, listing: inner } => {
                lemma_scan_mirrors(path_units(canonical), inner);
            },
            Entry::File { .. } => {},
            Entry::Unresolved { .. } => {},
        }
    }
}

/// Whether `entry` is a directory whose name is outside the exclusion set.
pub open spec fn is_content_directory(entry: Entry) -> bool {
    entry matches Entry::Directory { canonical, .. } && !excluded(display_name(path_units(canonical)))
}

/// The directories among `entries` whose names are outside the exclusion
/// set, in the order of the listing.
pub open spec fn content_directories(entries: Seq<Entry>) -> Seq<Entry> {
    entries.filter(|entry: Entry| is_content_directory(entry))
}

/// At the root the first `count` entries leave one node for each content
/// directory among them, in order, and nothing else.
proof fn lemma_root_entries(entries: Vec<Entry>, count: nat)
    requires
        count <= entries.len(),
        scan_entries(entries, count, true) is Ok,
    ensures
        scan_entries(entries, count, true)->Ok_0.len() == content_directories(
            entries@.take(count as int),
        ).len(),
        forall|k: int|
            0 <= k < content_directories(entries@.take(count as int)).len() ==> scan_entry(
                #[trigger] content_directories(entries@.take(count as int))[k],
                false,
            ) == Ok::<Option<NodeView>, SiteErrorView>(
                Some(scan_entries(entries, count, true)->Ok_0[k]),
            ),
    decreases count,
{
    reveal_with_fuel(Seq::filter, 2);
    let prefix = entries@.take(count as int);
    if count == 0 {
        assert(content_directories(prefix).len() == 0);
    } else {
        let before = entries@.take(count - 1);
        let last = entries[count - 1];
        lemma_root_entries(entries, (count - 1) as nat);
        assert(prefix.drop_last() =~= before);
        assert(prefix.last() == last);
        let nodes = scan_entries(entries, (count - 1) as nat, true)->Ok_0;
        if is_content_directory(last) {
            assert(content_directories(prefix) == content_directories(before).push(last));
            assert(scan_entry(last, true) == scan_entry(last, false));
            let node = scan_entry(last, true)->Ok_0->Some_0;
            assert(scan_entries(entries, count, true)->Ok_0 == nodes.push(node));
        } else {
            assert(content_directories(prefix) == content_directories(before));
            assert(scan_entry(last, true) == Ok::<Option<NodeView>, SiteErrorView>(None));
            assert(scan_entries(entries, count, true)->Ok_0 == nodes);
        }
    }
}

/// At the root exactly the content directories appear: the children of a
/// scanned root are the exact images of the root's directories outside the
/// exclusion set, one for one and in the order of the listing. No file of the
/// root and no directory of the exclusion set has a node.
pub proof fn lemma_root_holds_content_directories(path: Seq<u8>, entries: Vec<Entry>)
    requires
        scan_directory(path, Listing::Entries(entries), true) is Ok,
    ensures
        scan_directory(path, Listing::Entries(entries), true)->Ok_0 matches NodeView::Folder {
            children,
            ..
        } && children.len() == content_directories(entries@).len() && forall|k: int|
            0 <= k < children.len() ==> mirrors_entry(
                #[trigger] children[k],
                content_directories(entries@)[k],
            ),
{
    let kept = content_directories(entries@);
    let children = scan_entries(entries, entries.len() as nat, true)->Ok_0;
    lemma_root_entries(entries, entries.len() as nat);
    assert(entries@.take(entries.len() as int) =~= entries@);
    assert forall|k: int| 0 <= k < children.len() implies mirrors_entry(
        #[trigger] children[k],
        kept[k],
    ) by {
        entries@.lemma_filter_pred(|entry: Entry| is_content_directory(entry), k);
        assert(is_content_directory(kept[k]));
        match kept[k] {
            Entry::Directory { canonical, listing } => {
                lemma_scan_mirrors(path_units(canonical), listing);
            },
            _ => {},
        }
    }
}

/// No child of a scanned root bears a name of the exclusion set: every
/// child is a folder at the canonical path of a directory of the root, named
/// after that path's final component, and that name is outside the set.
pub proof fn lemma_root_children_bear_no_excluded_name(path: Seq<u8>, entries: Vec<Entry>)
    requires
        scan_directory(path, Listing::Entries(entries), true) is Ok,
    ensures
        scan_directory(path, Listing::Entries(entries), true)->Ok_0 matches NodeView::Folder {
            children,
            ..
        } && forall|k: int|
            0 <= k < children.len() ==> (#[trigger] children[k] matches NodeView::Folder {
                name,
                path: recorded,
                ..
            } && name == display_name(recorded) && !excluded(name)),
{
    let kept = content_directories(entries@);
    let children = scan_directory(path, Listing::Entries(entries), true)->Ok_0->Folder_children;
    lemma_root_holds_content_directories(path, entries);
    assert forall|k: int| 0 <= k < children.len() implies (#[trigger] children[k] matches NodeView::Folder {
        name,
        path: recorded,
        ..
    } && name == display_name(recorded) && !excluded(name)) by {
        entries@.lemma_filter_pred(|entry: Entry| is_content_directory(entry), k);
        assert(is_content_directory(kept[k]));
        assert(mirrors_entry(children[k], kept[k]));
    }
}

/// Whether every node of a tree is named after the final component of the
/// path it records.
pub open spec fn well_named(node: NodeView) -> bool
    decreases node,
{
    match node {
        NodeView::File { name, path, .. } => name == display_name(path),
        NodeView::Folder { name, path, children } => name == display_name(path) && forall|
            i: int,
        | 0 <= i < children.len() ==> well_named(#[trigger] children[i]),
    }
}

/// The exact image of a directory is named after its paths throughout.
proof fn lemma_image_is_well_named(node: NodeView, path: Seq<u8>, listing: Listing)
    requires
        mirrors(node, path, listing),
    ensures
        well_named(node),
    decreases listing,
{
    let entries = listing->Entries_0;
    let children = node->Folder_children;
    assert forall|i: int| 0 <= i < children.len() implies well_named(#[trigger] children[i]) by {
        assert(mirrors_entry(children[i], entries[i]));
        match entries[i] {
            Entry::Directory { canonical, listing: inner } => {
                lemma_image_is_well_named(children[i], path_units(canonical), inner);
            },
            _ => {},
        }
    }
}

/// Every node of a scanned tree records the canonical path that its entry
/// came with, the root the scanned path, and is named after the final
/// component of the path it records.
pub proof fn lemma_scan_is_well_named(path: Seq<u8>, listing: Listing, filtered: bool)
    requires
        scan_directory(path, listing, filtered) is Ok,
    ensures
        well_named(scan_directory(path, listing, filtered)->Ok_0),
{
    let node = scan_directory(path, listing, filtered)->Ok_0;
    if filtered {
        let entries = listing->Entries_0;
        let kept = content_directories(entries@);
        let children = node->Folder_children;
        lemma_root_holds_content_directories(path, entries);
        assert forall|k: int| 0 <= k < children.len() implies well_named(
            #[trigger] children[k],
        ) by {
            entries@.lemma_filter_pred(|entry: Entry| is_content_directory(entry), k);
            assert(is_content_directory(kept[k]));
            assert(mirrors_entry(children[k], kept[k]));
            match kept[k] {
                Entry::Directory { canonical, listing: inner } => {
                    lemma_image_is_well_named(children[k], path_units(canonical), inner);
                },
                _ => {},
            }
        }
    } else {
        lemma_scan_mirrors(path, listing);
        lemma_image_is_well_named(node, path, listing);
    }
}

} // verus!
