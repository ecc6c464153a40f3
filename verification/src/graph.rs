//! The graph entities whose names the execution engine reads: books (the
//! projects of the workflow graph), pages, nodes and edges. Their
//! persistence is a separate concern outside the library; the engine itself
//! only consumes a book's and a page's title when naming a run's artifact
//! directory.

use vstd::prelude::*;
use vstd::string::StringExecFns;

verus! {

/// A book: the top-level grouping whose title names the artifact tree's
/// project directory.
#[derive(Debug, Clone)]
pub struct Book {
    /// Row identifier.
    pub id: i32,
    /// Display title; the artifact tree's project directory name.
    pub title: String,
    /// The enclosing book, if any.
    pub parent_id: Option<i32>,
    /// Serialized layout state, owned by the editor.
    pub flow_data: Option<String>,
}

/// A page inside a book; its title names the artifact tree's page directory.
#[derive(Debug, Clone)]
pub struct Page {
    /// Row identifier.
    pub id: i32,
    /// The book this page belongs to.
    pub fk_book_id: i32,
    /// Display title; the artifact tree's page directory name.
    pub title: String,
    /// Serialized graph state, owned by the editor.
    pub flow_data: Option<String>,
    /// Position among the book's pages.
    pub display_order: i32,
}

/// A node on a page: one unit of work the engine can execute.
#[derive(Debug, Clone)]
pub struct Node {
    /// Node identifier, unique per page.
    pub id: String,
    /// The page this node sits on.
    pub fk_page_id: i32,
    /// Serialized node configuration.
    pub data: String,
    /// Which strategy the node calls for.
    pub node_type: String,
    /// Horizontal position on the canvas.
    pub position_x: i32,
    /// Vertical position on the canvas.
    pub position_y: i32,
}

/// An edge between two nodes of a page.
#[derive(Debug, Clone)]
pub struct Edge {
    /// Row identifier.
    pub id: i32,
    /// The page this edge belongs to.
    pub fk_page_id: i32,
    /// The source node's identifier.
    pub source: String,
    /// The target node's identifier.
    pub target: String,
    /// The source node's handle, if the editor set one.
    pub source_handle: Option<String>,
    /// The target node's handle, if the editor set one.
    pub target_handle: Option<String>,
}

/// The project name a run's artifacts are filed under: the book's title, or
/// the root name when the node belongs to no book.
pub fn artifact_project_name(book: Option<&Book>) -> (r: String)
    ensures
        match book {
            Some(b) => r@ == b.title@,
            None => r@ == "root"@,
        },
{
    match book {
        Some(b) => b.title.clone(),
        None => {
            let mut s = String::new();
            s.append("root");
            s
        },
    }
}

} // verus!
