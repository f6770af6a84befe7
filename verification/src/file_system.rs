//! The tree scanner: from what a directory holds to the tree of folders and
//! content files that a site is built from.

use crate::config::Config;
use crate::error::ErrorKind;
use crate::error::SiteError;
use crate::error::SiteErrorView;
use crate::paths::display_name;
use crate::paths::path_file_name;
use crate::paths::path_lossy_text;
use crate::paths::path_units;
use std::path::PathBuf;
use vstd::prelude::*;

verus! {

/// All discovered data about the site that is being built.
#[derive(Debug, PartialEq, Eq)]
pub struct SiteData {
    /// The root of the scanned tree: always a folder.
    pub included_data: Node,
}

impl SiteData {
    /// Whether the data is what a scan yields: a tree whose root is a folder.
    pub open spec fn well_formed(&self) -> bool {
        self.included_data is Folder
    }
}

/// A directory or a content file of the scanned tree.
#[derive(Debug, PartialEq, Eq)]
pub enum Node {
    Folder {
        /// The final component of `path`, as text.
        name: String,
        /// The directory's canonical path.
        path: PathBuf,
        /// What the directory holds, in the order of its listing.
        children: Vec<Node>,
    },
    File {
        /// Full file name, including the extension: the final component of
        /// `path`, as text.
        name: String,
        /// The file's canonical path.
        path: PathBuf,
        /// The file's text.
        data: String,
    },
}

/// The mathematical value of a [`Node`].
pub enum NodeView {
    Folder { name: Seq<char>, path: Seq<u8>, children: Seq<NodeView> },
    File { name: Seq<char>, path: Seq<u8>, data: Seq<char> },
}

/// The value of a node: its texts, and the values of its children in order.
pub open spec fn node_view(node: Node) -> NodeView
    decreases node,
{
    match node {
        Node::Folder { name, path, children } => NodeView::Folder {
            name: name@,
            path: path_units(path),
            children: Seq::new(
                children.len() as nat,
                |i: int|
                    if 0 <= i < children.len() {
                        node_view(children[i])
                    } else {
                        arbitrary()
                    },
            ),
        },
        Node::File { name, path, data } => NodeView::File {
            name: name@,
            path: path_units(path),
            data: data@,
        },
    }
}

impl View for Node {
    type V = NodeView;

    open spec fn view(&self) -> NodeView {
        node_view(*self)
    }
}

/// The values of a list of nodes, one for one.
pub open spec fn views(nodes: Seq<Node>) -> Seq<NodeView> {
    Seq::new(nodes.len(), |i: int| nodes[i]@)
}

/// What reading one file gave.
#[derive(Debug)]
pub enum Contents {
    /// The file's whole text.
    Text(String),
    /// The file's bytes are not UTF-8; the cause in words.
    Undecodable(String),
    /// The file could not be read; the cause in words.
    Unreadable(String),
    /// The file was not read, because the scanner does not look at it.
    Unread,
}

/// What listing one directory gave.
#[derive(Debug)]
pub enum Listing {
    /// The directory's entries, in the order the file system yields them.
    Entries(Vec<Entry>),
    /// The directory could not be listed; the cause in words.
    Unreadable(String),
    /// The directory was not listed, because the scanner does not descend
    /// into it.
    Unread,
}

/// One entry of a directory listing.
#[derive(Debug)]
pub enum Entry {
    Directory {
        /// The entry's canonical path.
        canonical: PathBuf,
        /// What the directory holds.
        listing: Listing,
    },
    File {
        /// The entry's canonical path.
        canonical: PathBuf,
        /// What the file holds.
        contents: Contents,
    },
    /// An entry that could not be read from the listing, resolved to a
    /// canonical path or typed: its path as listed, and the cause in words.
    Unresolved { path: PathBuf, detail: String },
}

/// The root-level directories that hold tooling, not content.
pub open spec fn excluded(name: Seq<char>) -> bool {
    ||| name == ".git"@
    ||| name == ".vscode"@
    ||| name == "site"@
    ||| name == "src"@
    ||| name == "target"@
    ||| name == "templates"@
}

/// Whether the scanner looks at what an entry holds: at the root only into
/// directories outside the exclusion set, below the root at everything.
pub open spec fn visited(filtered: bool, directory: bool, name: Seq<char>) -> bool {
    !filtered || (directory && !excluded(name))
}

/// The cause reported for a file or directory that the scanner needs and the
/// caller did not read.
pub open spec fn unread_detail() -> Seq<char> {
    "not read"@
}

/// An error of kind `Io`.
pub open spec fn io_error(path: Seq<u8>, detail: Seq<char>) -> SiteErrorView {
    SiteErrorView { kind: ErrorKind::Io, path, detail }
}

/// What one entry contributes to its directory's node: nothing where the
/// scanner passes it over, one node where it is content, an error where it
/// cannot be had. A node records the canonical path of its entry and is
/// named after that path's final component.
pub open spec fn scan_entry(entry: Entry, filtered: bool) -> Result<Option<NodeView>, SiteErrorView>
    decreases entry,
{
    match entry {
        Entry::Unresolved { path, detail } => Err(io_error(path_units(path), detail@)),
        Entry::Directory { canonical, listing } => {
            if visited(filtered, true, display_name(path_units(canonical))) {
                match scan_directory(path_units(canonical), listing, false) {
                    Ok(node) => Ok(Some(node)),
                    Err(error) => Err(error),
                }
            } else {
                Ok(None)
            }
        },
        Entry::File { canonical, contents } => {
            if visited(filtered, false, display_name(path_units(canonical))) {
                match contents {
                    Contents::Text(text) => Ok(
                        Some(
                            NodeView::File {
                                name: display_name(path_units(canonical)),
                                path: path_units(canonical),
                                data: text@,
                            },
                        ),
                    ),
                    Contents::Undecodable(detail) => Err(
                        SiteErrorView {
                            kind: ErrorKind::Decode,
                            path: path_units(canonical),
                            detail: detail@,
                        },
                    ),
                    Contents::Unreadable(detail) => Err(io_error(path_units(canonical), detail@)),
                    Contents::Unread => Err(io_error(path_units(canonical), unread_detail())),
                }
            } else {
                Ok(None)
            }
        },
    }
}

/// The nodes of the first `count` entries, in order, or the error of the
/// first entry that has one.
pub open spec fn scan_entries(entries: Vec<Entry>, count: nat, filtered: bool) -> Result<
    Seq<NodeView>,
    SiteErrorView,
>
    decreases entries, count,
{
    if count == 0 || count > entries.len() {
        Ok(Seq::empty())
    } else {
        match scan_entries(entries, (count - 1) as nat, filtered) {
            Err(error) => Err(error),
            Ok(nodes) => match scan_entry(entries[count - 1], filtered) {
                Err(error) => Err(error),
                Ok(None) => Ok(nodes),
                Ok(Some(node)) => Ok(nodes.push(node)),
            },
        }
    }
}

/// The scan of the directory at `path` that holds `listing`: a folder named
/// after the path's final component, with the nodes of its entries as
/// children, or the first error met. `filtered` is true at the root of a scan
/// and nowhere else.
pub open spec fn scan_directory(path: Seq<u8>, listing: Listing, filtered: bool) -> Result<
    NodeView,
    SiteErrorView,
>
    decreases listing,
{
    match listing {
        Listing::Entries(entries) => match scan_entries(entries, entries.len() as nat, filtered) {
            Ok(children) => Ok(NodeView::Folder { name: display_name(path), path, children }),
            Err(error) => Err(error),
        },
        Listing::Unreadable(detail) => Err(io_error(path, detail@)),
        Listing::Unread => Err(io_error(path, unread_detail())),
    }
}

/// An error met among the first entries is the error of every longer scan.
pub proof fn lemma_scan_error_persists(entries: Vec<Entry>, count: nat, more: nat, filtered: bool)
    requires
        count <= more <= entries.len(),
        scan_entries(entries, count, filtered) is Err,
    ensures
        scan_entries(entries, more, filtered) == scan_entries(entries, count, filtered),
    decreases more - count,
{
    if count < more {
        lemma_scan_error_persists(entries, count, (more - 1) as nat, filtered);
    }
}

/// Where the entry at `index` has an error and none before it has, that
/// error is the error of the whole listing.
pub proof fn lemma_scan_stops(entries: Vec<Entry>, index: nat, filtered: bool)
    requires
        index < entries.len(),
        scan_entries(entries, index, filtered) is Ok,
        scan_entry(entries[index as int], filtered) is Err,
    ensures
        scan_entries(entries, entries.len() as nat, filtered) == Err::<
            Seq<NodeView>,
            SiteErrorView,
        >(scan_entry(entries[index as int], filtered)->Err_0),
{
    assert(scan_entries(entries, index + 1, filtered) is Err);
    lemma_scan_error_persists(entries, index + 1, entries.len() as nat, filtered);
}

/// The value of a folder built from `children`.
pub proof fn lemma_folder_view(node: Node)
    requires
        node is Folder,
    ensures
        node@ == (NodeView::Folder {
            name: node->Folder_name@,
            path: path_units(node->Folder_path),
            children: views(node->children@),
        }),
{
    assert(node@->Folder_children =~= views(node->children@)) by {
        assert(node@->Folder_children.len() == node->children@.len());
        assert forall|i: int| 0 <= i < node->children@.len() implies node@->Folder_children[i]
            == views(node->children@)[i] by {
            assert(node->children[i] == node->children@[i]);
        }
    }
}

/// The final component of `path` as text, or the empty text where it has
/// none.
pub fn file_name(path: &PathBuf) -> (name: String)
    ensures
        name@ == display_name(path_units(*path)),
{
    match path_file_name(path) {
        Some(name) => path_lossy_text(&name),
        None => String::new(),
    }
}

/// Whether `name` is in the exclusion set.
pub fn is_excluded(name: &str) -> (yes: bool)
    ensures
        yes == excluded(name@),
{
    let name = name.to_owned();
    name == ".git".to_owned() || name == ".vscode".to_owned() || name == "site".to_owned() || name
        == "src".to_owned() || name == "target".to_owned() || name == "templates".to_owned()
}

/// Whether the scanner looks at what the entry with the canonical path
/// `canonical` holds. A caller that reads a directory tree for the scanner
/// may leave unread whatever this function turns down.
pub fn visits(filtered: bool, directory: bool, canonical: &PathBuf) -> (yes: bool)
    ensures
        yes == visited(filtered, directory, display_name(path_units(*canonical))),
{
    if !filtered {
        true
    } else if directory {
        let name = file_name(canonical);
        !is_excluded(name.as_str())
    } else {
        false
    }
}

/// Scans the directory at `path` that holds `listing`. With `filtered` the
/// tooling directories and the loose files of the directory are passed over.
pub fn iter_directory(path: &PathBuf, listing: &Listing, filtered: bool) -> (result: Result<
    Node,
    SiteError,
>)
    ensures
        match result {
            Ok(node) => scan_directory(path_units(*path), *listing, filtered) == Ok::<
                NodeView,
                SiteErrorView,
            >(node@),
            Err(error) => scan_directory(path_units(*path), *listing, filtered) == Err::<
                NodeView,
                SiteErrorView,
            >(error@),
        },
        result is Ok ==> result.unwrap() is Folder,
    decreases listing,
{
    match listing {
        Listing::Unreadable(detail) => Err(SiteError::new(ErrorKind::Io, path, detail.as_str())),
        Listing::Unread => Err(SiteError::new(ErrorKind::Io, path, "not read")),
        Listing::Entries(entries) => {
            let mut children: Vec<Node> = Vec::new();
            let mut i: usize = 0;
            assert(views(children@) =~= Seq::empty());
            while i < entries.len()
                invariant
                    i <= entries.len(),
                    scan_entries(*entries, i as nat, filtered) == Ok::<
                        Seq<NodeView>,
                        SiteErrorView,
                    >(views(children@)),
                    *listing == Listing::Entries(*entries),
                decreases entries.len() - i,
            {
                let ghost before = views(children@);
                match &entries[i] {
                    Entry::Unresolved { path: at, detail } => {
                        proof {
                            lemma_scan_stops(*entries, i as nat, filtered);
                        }
                        return Err(SiteError::new(ErrorKind::Io, at, detail.as_str()));
                    },
                    Entry::Directory { canonical, listing: inner } => {
                        if visits(filtered, true, canonical) {
                            match iter_directory(canonical, inner, false) {
                                Ok(child) => {
                                    children.push(child);
                                    assert(views(children@) =~= before.push(child@));
                                },
                                Err(error) => {
                                    proof {
                                        lemma_scan_stops(*entries, i as nat, filtered);
                                    }
                                    return Err(error);
                                },
                            }
                        }
                    },
                    Entry::File { canonical, contents } => {
                        if visits(filtered, false, canonical) {
                            let failure = match contents {
                                Contents::Text(text) => {
                                    let child = Node::File {
                                        name: file_name(canonical),
                                        path: canonical.clone(),
                                        data: text.clone(),
                                    };
                                    children.push(child);
                                    assert(views(children@) =~= before.push(child@));
                                    None
                                },
                                Contents::Undecodable(detail) => Some(
                                    SiteError::new(ErrorKind::Decode, canonical, detail.as_str()),
                                ),
                                Contents::Unreadable(detail) => Some(
                                    SiteError::new(ErrorKind::Io, canonical, detail.as_str()),
                                ),
                                Contents::Unread => Some(
                                    SiteError::new(ErrorKind::Io, canonical, "not read"),
                                ),
                            };
                            if let Some(error) = failure {
                                proof {
                                    lemma_scan_stops(*entries, i as nat, filtered);
                                }
                                return Err(error);
                            }
                        }
                    },
                }
                i += 1;
            }
            let node = Node::Folder { name: file_name(path), path: path.clone(), children };
            proof {
                lemma_folder_view(node);
            }
            Ok(node)
        },
    }
}

/// Get all posts that are to be included in the website: the scan of the
/// input directory, which holds `listing`.
pub fn get_posts(config: &Config, listing: &Listing) -> (result: Result<SiteData, SiteError>)
    ensures
        match result {
            Ok(site) => scan_directory(path_units(config.input_dir), *listing, true) == Ok::<
                NodeView,
                SiteErrorView,
            >(site.included_data@),
            Err(error) => scan_directory(path_units(config.input_dir), *listing, true) == Err::<
                NodeView,
                SiteErrorView,
            >(error@),
        },
        result is Ok ==> result.unwrap().well_formed(),
{
    match iter_directory(&config.input_dir, listing, true) {
        Ok(node) => Ok(SiteData { included_data: node }),
        Err(error) => Err(error),
    }
}

} // verus!
