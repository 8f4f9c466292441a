//! Target-agnostic UI widget tree: a builder API, AI metadata annotations,
//! plain-text extraction and an HTML devtools renderer.
//!
//! Every tree is described in contracts by its model, a sequence of
//! [`NodeModel`]s; the builders, `text_content`, `assign_ids` and the renderer
//! are all stated over that model.

use vstd::prelude::*;
use crate::text::{decimal, esc, push_char, push_decimal, push_escaped};

verus! {

// ---------------------------------------------------------------------------
// Mathematical model
// ---------------------------------------------------------------------------

/// The metadata carried by one node.
pub struct MetaModel {
    pub ai_action: Option<Seq<char>>,
    pub ai_params: Seq<(Seq<char>, Seq<char>)>,
    pub ai_description: Option<Seq<char>>,
    pub class: Option<Seq<char>>,
    pub id: Option<Seq<char>>,
}

/// What kind of node it is, with its content.
pub enum KindModel {
    Heading { level: u32, text: Seq<char> },
    Text { content: Seq<char> },
    DataGrid { headers: Seq<Seq<char>>, rows: Seq<Seq<Seq<char>>> },
    Container { children: Seq<NodeModel> },
}

/// One node of a tree: its kind and its metadata.
pub struct NodeModel {
    pub kind: KindModel,
    pub meta: MetaModel,
}

/// Metadata with nothing set.
pub open spec fn empty_meta() -> MetaModel {
    MetaModel {
        ai_action: None,
        ai_params: Seq::empty(),
        ai_description: None,
        class: None,
        id: None,
    }
}

pub open spec fn opt_view(o: Option<String>) -> Option<Seq<char>> {
    match o {
        Some(s) => Some(s@),
        None => None,
    }
}

/// Plain text of a row of cells: each cell followed by a space.
pub open spec fn cells_text(cells: Seq<Seq<char>>) -> Seq<char>
    decreases cells.len(),
{
    if cells.len() == 0 {
        Seq::empty()
    } else {
        cells_text(cells.drop_last()) + cells.last().push(' ')
    }
}

/// Plain text of grid rows: each row's cells followed by a line break.
pub open spec fn rows_text(rows: Seq<Seq<Seq<char>>>) -> Seq<char>
    decreases rows.len(),
{
    if rows.len() == 0 {
        Seq::empty()
    } else {
        rows_text(rows.drop_last()) + cells_text(rows.last()).push('\n')
    }
}

/// Human-readable text of one node (depth first).
pub open spec fn node_text(m: NodeModel) -> Seq<char>
    decreases m,
{
    match m.kind {
        KindModel::Heading { text, .. } => text.push('\n'),
        KindModel::Text { content } => content.push('\n'),
        KindModel::DataGrid { headers, rows } => cells_text(headers).push('\n') + rows_text(rows),
        KindModel::Container { children } => tree_text(children),
    }
}

/// Human-readable text of a sequence of nodes, in depth-first order.
pub open spec fn tree_text(ms: Seq<NodeModel>) -> Seq<char>
    decreases ms,
{
    if ms.len() == 0 {
        Seq::empty()
    } else {
        tree_text(ms.drop_last()) + node_text(ms.last())
    }
}

/// ` id="…"` when the node has an id, else nothing.
pub open spec fn id_attr(meta: MetaModel) -> Seq<char> {
    match meta.id {
        Some(id) => " id=\""@ + id + "\""@,
        None => Seq::empty(),
    }
}

/// ` class="…"` when the node has a class, else nothing.
pub open spec fn class_attr(meta: MetaModel) -> Seq<char> {
    match meta.class {
        Some(c) => " class=\""@ + c + "\""@,
        None => Seq::empty(),
    }
}

/// Header cells of a grid: `<th>cell</th>` each, cell text escaped.
pub open spec fn header_cells_html(cells: Seq<Seq<char>>) -> Seq<char>
    decreases cells.len(),
{
    if cells.len() == 0 {
        Seq::empty()
    } else {
        header_cells_html(cells.drop_last()) + "<th>"@ + esc(cells.last()) + "</th>"@
    }
}

/// Data cells of a grid row: `<td>cell</td>` each, cell text escaped.
pub open spec fn data_cells_html(cells: Seq<Seq<char>>) -> Seq<char>
    decreases cells.len(),
{
    if cells.len() == 0 {
        Seq::empty()
    } else {
        data_cells_html(cells.drop_last()) + "<td>"@ + esc(cells.last()) + "</td>"@
    }
}

/// Grid rows: `<tr>…</tr>` each.
pub open spec fn rows_html(rows: Seq<Seq<Seq<char>>>) -> Seq<char>
    decreases rows.len(),
{
    if rows.len() == 0 {
        Seq::empty()
    } else {
        rows_html(rows.drop_last()) + "<tr>"@ + data_cells_html(rows.last()) + "</tr>"@
    }
}

/// HTML of one node.
pub open spec fn node_html(m: NodeModel) -> Seq<char>
    decreases m,
{
    match m.kind {
        KindModel::Heading { level, text } => "<h"@ + decimal(level as nat) + id_attr(m.meta) + ">"@
            + esc(text) + "</h"@ + decimal(level as nat) + ">"@,
        KindModel::Text { content } => "<pre"@ + id_attr(m.meta) + class_attr(m.meta) + ">"@ + esc(
            content,
        ) + "</pre>"@,
        KindModel::DataGrid { headers, rows } => "<table"@ + id_attr(m.meta) + class_attr(m.meta)
            + " data-node-type=\"DataGrid\"><thead><tr>"@ + header_cells_html(headers)
            + "</tr></thead><tbody>"@ + rows_html(rows) + "</tbody></table>"@,
        KindModel::Container { children } => "<div"@ + id_attr(m.meta) + class_attr(m.meta) + ">"@
            + tree_html(children) + "</div>"@,
    }
}

/// HTML of a sequence of nodes, in order.
pub open spec fn tree_html(ms: Seq<NodeModel>) -> Seq<char>
    decreases ms,
{
    if ms.len() == 0 {
        Seq::empty()
    } else {
        tree_html(ms.drop_last()) + node_html(ms.last())
    }
}

/// The full devtools page around a rendered body.
pub open spec fn html_page(body: Seq<char>) -> Seq<char> {
    "<!doctype html><html><head><meta charset=\"utf-8\"></head><body>"@ + body + "</body></html>"@
}

/// The id given to the node numbered `k` in depth-first order: `n<k>`.
pub open spec fn id_text(k: nat) -> Seq<char> {
    seq!['n'] + decimal(k)
}

/// Number of nodes in the subtree rooted at `m` (itself included).
pub open spec fn node_count(m: NodeModel) -> nat
    decreases m,
{
    match m.kind {
        KindModel::Container { children } => 1 + tree_count(children),
        _ => 1,
    }
}

/// Number of nodes in a sequence of trees.
pub open spec fn tree_count(ms: Seq<NodeModel>) -> nat
    decreases ms,
{
    if ms.len() == 0 {
        0
    } else {
        tree_count(ms.drop_last()) + node_count(ms.last())
    }
}

/// `m` with every node of its subtree stamped with an id, numbering in
/// depth-first pre-order from `k`.
pub open spec fn node_with_ids(m: NodeModel, k: nat) -> NodeModel
    decreases m,
{
    NodeModel {
        kind: match m.kind {
            KindModel::Container { children } => KindModel::Container {
                children: tree_with_ids(children, k + 1),
            },
            _ => m.kind,
        },
        meta: MetaModel { id: Some(id_text(k)), ..m.meta },
    }
}

/// A sequence of trees with ids stamped in depth-first pre-order from `k`.
pub open spec fn tree_with_ids(ms: Seq<NodeModel>, k: nat) -> Seq<NodeModel>
    decreases ms,
{
    if ms.len() == 0 {
        Seq::empty()
    } else {
        tree_with_ids(ms.drop_last(), k).push(
            node_with_ids(ms.last(), k + tree_count(ms.drop_last())),
        )
    }
}

proof fn lemma_tree_count_push(ms: Seq<NodeModel>, m: NodeModel)
    ensures
        tree_count(ms.push(m)) == tree_count(ms) + node_count(m),
        tree_with_ids(ms.push(m), 0) == tree_with_ids(ms, 0).push(node_with_ids(m, tree_count(ms))),
        forall|k: nat| #[trigger] tree_with_ids(ms.push(m), k) == tree_with_ids(ms, k).push(
            node_with_ids(m, k + tree_count(ms)),
        ),
{
    assert(ms.push(m).drop_last() =~= ms);
}

proof fn lemma_tree_count_prefix(ms: Seq<NodeModel>, j: int)
    requires
        0 <= j <= ms.len(),
    ensures
        tree_count(ms.take(j)) <= tree_count(ms),
    decreases ms.len(),
{
    if j == ms.len() {
        assert(ms.take(j) =~= ms);
    } else {
        lemma_tree_count_prefix(ms.drop_last(), j);
        assert(ms.drop_last().take(j) =~= ms.take(j));
    }
}

proof fn lemma_tree_html_push(ms: Seq<NodeModel>, m: NodeModel)
    ensures
        tree_html(ms.push(m)) == tree_html(ms) + node_html(m),
{
    assert(ms.push(m).drop_last() =~= ms);
}

proof fn lemma_tree_text_push(ms: Seq<NodeModel>, m: NodeModel)
    ensures
        tree_text(ms.push(m)) == tree_text(ms) + node_text(m),
{
    assert(ms.push(m).drop_last() =~= ms);
}

// ---------------------------------------------------------------------------
// Executable representation
// ---------------------------------------------------------------------------

/// A handle to the metadata of a freshly added node; its setters chain.
pub struct NodeRef {
    ai_action: Option<String>,
    ai_params: Vec<(String, String)>,
    ai_description: Option<String>,
    class: Option<String>,
    id: Option<String>,
}

impl View for NodeRef {
    type V = MetaModel;

    closed spec fn view(&self) -> MetaModel {
        MetaModel {
            ai_action: opt_view(self.ai_action),
            ai_params: self.ai_params@.map_values(|p: (String, String)| (p.0@, p.1@)),
            ai_description: opt_view(self.ai_description),
            class: opt_view(self.class),
            id: opt_view(self.id),
        }
    }
}

enum NodeInner {
    Heading { level: u32, text: String },
    Text { content: String },
    DataGrid { headers: Vec<String>, rows: Vec<Vec<String>> },
    Container { children: Vec<TreeNode> },
}

struct TreeNode {
    inner: NodeInner,
    meta: NodeRef,
}

spec fn cells_model(cells: Seq<String>) -> Seq<Seq<char>> {
    cells.map_values(|c: String| c@)
}

spec fn rows_model(rows: Seq<Vec<String>>) -> Seq<Seq<Seq<char>>> {
    rows.map_values(|r: Vec<String>| cells_model(r@))
}

spec fn node_model(n: TreeNode) -> NodeModel
    decreases n,
{
    NodeModel {
        kind: match n.inner {
            NodeInner::Heading { level, text } => KindModel::Heading { level, text: text@ },
            NodeInner::Text { content } => KindModel::Text { content: content@ },
            NodeInner::DataGrid { headers, rows } => KindModel::DataGrid {
                headers: cells_model(headers@),
                rows: rows_model(rows@),
            },
            NodeInner::Container { children } => KindModel::Container {
                children: nodes_model(children@),
            },
        },
        meta: n.meta@,
    }
}

spec fn nodes_model(s: Seq<TreeNode>) -> Seq<NodeModel>
    decreases s,
{
    if s.len() == 0 {
        Seq::empty()
    } else {
        nodes_model(s.drop_last()).push(node_model(s.last()))
    }
}

proof fn lemma_nodes_model(s: Seq<TreeNode>)
    ensures
        nodes_model(s).len() == s.len(),
        forall|i: int| 0 <= i < s.len() ==> nodes_model(s)[i] == node_model(#[trigger] s[i]),
    decreases s.len(),
{
    if s.len() > 0 {
        lemma_nodes_model(s.drop_last());
        assert forall|i: int| 0 <= i < s.len() implies nodes_model(s)[i] == node_model(#[trigger] s[i]) by {
            if i < s.len() - 1 {
                assert(s.drop_last()[i] == s[i]);
            }
        }
    }
}

proof fn lemma_nodes_model_push(s: Seq<TreeNode>, n: TreeNode)
    ensures
        nodes_model(s.push(n)) == nodes_model(s).push(node_model(n)),
{
    assert(s.push(n).drop_last() =~= s);
}

proof fn lemma_nodes_model_take(s: Seq<TreeNode>, i: int)
    requires
        0 <= i < s.len(),
    ensures
        nodes_model(s.take(i + 1)) == nodes_model(s.take(i)).push(node_model(s[i])),
{
    assert(s.take(i + 1).drop_last() =~= s.take(i));
}

/// A target-agnostic UI widget tree. `T` is a phantom type parameter for
/// app-state metadata.
pub struct UITree<T> {
    nodes: Vec<TreeNode>,
    _phantom: core::marker::PhantomData<T>,
}

impl<T> View for UITree<T> {
    type V = Seq<NodeModel>;

    closed spec fn view(&self) -> Seq<NodeModel> {
        nodes_model(self.nodes@)
    }
}

/// Accumulates the nodes of a tree under construction.
pub struct NodeBuilder {
    nodes: Vec<TreeNode>,
}

impl View for NodeBuilder {
    type V = Seq<NodeModel>;

    closed spec fn view(&self) -> Seq<NodeModel> {
        nodes_model(self.nodes@)
    }
}

fn empty_ref() -> (r: NodeRef)
    ensures
        r@ == empty_meta(),
{
    let r: NodeRef = NodeRef {
        ai_action: None,
        ai_params: Vec::new(),
        ai_description: None,
        class: None,
        id: None,
    };
    assert(r@.ai_params =~= Seq::<(Seq<char>, Seq<char>)>::empty());
    r
}

impl NodeBuilder {
    /// An empty builder.
    pub fn new() -> (b: NodeBuilder)
        ensures
            b@ == Seq::<NodeModel>::empty(),
    {
        NodeBuilder { nodes: Vec::new() }
    }

    fn push_node(&mut self, inner: NodeInner) -> (r: &mut NodeRef)
        ensures
            r@ == empty_meta(),
            final(self)@ == old(self)@.push(node_model(TreeNode { inner, meta: *final(r) })),
    {
        let meta: NodeRef = empty_ref();
        let ghost g_inner: NodeInner = inner;
        let ghost g_meta: NodeRef = meta;
        proof {
            let s: Seq<TreeNode> = old(self).nodes@;
            assert forall|m: NodeRef| #[trigger] s.push(TreeNode { inner: g_inner, meta: g_meta }).update(
                s.len() as int,
                TreeNode { inner: g_inner, meta: m },
            ) == s.push(TreeNode { inner: g_inner, meta: m }) && nodes_model(s.push(TreeNode { inner: g_inner, meta: m }))
                == nodes_model(s).push(node_model(TreeNode { inner: g_inner, meta: m })) by {
                assert(s.push(TreeNode { inner: g_inner, meta: g_meta }).update(
                    s.len() as int,
                    TreeNode { inner: g_inner, meta: m },
                ) =~= s.push(TreeNode { inner: g_inner, meta: m }));
                lemma_nodes_model_push(s, TreeNode { inner: g_inner, meta: m });
            }
        }
        self.nodes.push(TreeNode { inner, meta });
        let i: usize = self.nodes.len() - 1;
        &mut self.nodes[i].meta
    }

    /// Adds a heading of the given level.
    pub fn heading(&mut self, level: u32, text: &str) -> (r: &mut NodeRef)
        ensures
            r@ == empty_meta(),
            final(self)@ == old(self)@.push(
                NodeModel { kind: KindModel::Heading { level, text: text@ }, meta: final(r)@ },
            ),
    {
        self.push_node(NodeInner::Heading { level, text: text.to_string() })
    }

    /// Adds a monospaced text node.
    pub fn text(&mut self, content: &str) -> (r: &mut NodeRef)
        ensures
            r@ == empty_meta(),
            final(self)@ == old(self)@.push(
                NodeModel { kind: KindModel::Text { content: content@ }, meta: final(r)@ },
            ),
    {
        self.push_node(NodeInner::Text { content: content.to_string() })
    }

    /// Adds a data grid with the given column headers and rows of cells.
    pub fn data_grid(&mut self, headers: &[&str], rows: Vec<Vec<String>>) -> (r: &mut NodeRef)
        ensures
            r@ == empty_meta(),
            final(self)@ == old(self)@.push(
                NodeModel {
                    kind: KindModel::DataGrid {
                        headers: headers@.map_values(|h: &str| h@),
                        rows: rows@.map_values(|row: Vec<String>| row@.map_values(|c: String| c@)),
                    },
                    meta: final(r)@,
                },
            ),
    {
        let mut hs: Vec<String> = Vec::new();
        for i in 0..headers.len()
            invariant
                hs@.len() == i,
                forall|j: int| 0 <= j < i ==> #[trigger] hs@[j]@ == headers@[j]@,
        {
            hs.push(headers[i].to_string());
        }
        proof {
            assert(cells_model(hs@) =~= headers@.map_values(|h: &str| h@));
            assert(rows_model(rows@) =~= rows@.map_values(|row: Vec<String>| row@.map_values(|c: String| c@)));
        }
        self.push_node(NodeInner::DataGrid { headers: hs, rows })
    }

    /// Adds a container whose children are the nodes that `f` adds to a
    /// fresh builder.
    pub fn container(&mut self, f: impl FnOnce(&mut NodeBuilder)) -> (r: &mut NodeRef)
        requires
            forall|b: &mut NodeBuilder| f.requires((b,)),
        ensures
            r@ == empty_meta(),
            exists|m: &mut NodeBuilder|
                #[trigger] f.ensures((m,), ()) && m@ == Seq::<NodeModel>::empty()
                && final(self)@ == old(self)@.push(
                    NodeModel { kind: KindModel::Container { children: final(m)@ }, meta: final(r)@ },
                ),
    {
        let mut inner: NodeBuilder = NodeBuilder::new();
        f(&mut inner);
        self.push_node(NodeInner::Container { children: inner.nodes })
    }

    /// Adds the top-level nodes of `tree` as the children of a new container.
    pub fn with<U>(&mut self, tree: UITree<U>) -> (r: &mut NodeRef)
        ensures
            r@ == empty_meta(),
            final(self)@ == old(self)@.push(
                NodeModel { kind: KindModel::Container { children: tree@ }, meta: final(r)@ },
            ),
    {
        self.push_node(NodeInner::Container { children: tree.nodes })
    }
}

impl NodeRef {
    /// Sets the AI action name of the node.
    pub fn ai_action(&mut self, action: &str) -> (r: &mut Self)
        ensures
            r@ == (MetaModel { ai_action: Some(action@), ..old(self)@ }),
            *final(self) == *final(r),
    {
        self.ai_action = Some(action.to_string());
        self
    }

    /// Appends one AI parameter `(key, val)` to the node.
    pub fn ai_param(&mut self, key: &str, val: &str) -> (r: &mut Self)
        ensures
            r@ == (MetaModel { ai_params: old(self)@.ai_params.push((key@, val@)), ..old(self)@ }),
            *final(self) == *final(r),
    {
        self.ai_params.push((key.to_string(), val.to_string()));
        proof {
            assert(self@.ai_params =~= old(self)@.ai_params.push((key@, val@)));
        }
        self
    }

    /// Sets the AI description of the node.
    pub fn ai_description(&mut self, desc: &str) -> (r: &mut Self)
        ensures
            r@ == (MetaModel { ai_description: Some(desc@), ..old(self)@ }),
            *final(self) == *final(r),
    {
        self.ai_description = Some(desc.to_string());
        self
    }

    /// Sets the CSS class of the node.
    pub fn class(&mut self, c: &str) -> (r: &mut Self)
        ensures
            r@ == (MetaModel { class: Some(c@), ..old(self)@ }),
            *final(self) == *final(r),
    {
        self.class = Some(c.to_string());
        self
    }
}

impl<T> UITree<T> {
    /// The tree made of the nodes a builder holds.
    pub fn from_builder(b: NodeBuilder) -> (t: UITree<T>)
        ensures
            t@ == b@,
    {
        UITree { nodes: b.nodes, _phantom: core::marker::PhantomData }
    }

    /// Builds a tree from the nodes that `f` adds to a fresh builder.
    pub fn container(f: impl FnOnce(&mut NodeBuilder)) -> (t: UITree<T>)
        requires
            forall|b: &mut NodeBuilder| f.requires((b,)),
        ensures
            exists|m: &mut NodeBuilder|
                #[trigger] f.ensures((m,), ()) && m@ == Seq::<NodeModel>::empty() && t@ == final(m)@,
    {
        let mut b: NodeBuilder = NodeBuilder::new();
        f(&mut b);
        UITree { nodes: b.nodes, _phantom: core::marker::PhantomData }
    }
}


fn push_cells_text(out: &mut String, cells: &Vec<String>)
    ensures
        final(out)@ == old(out)@ + cells_text(cells_model(cells@)),
{
    let ghost start: Seq<char> = out@;
    for i in 0..cells.len()
        invariant
            out@ == start + cells_text(cells_model(cells@.take(i as int))),
    {
        out.append(cells[i].as_str());
        push_char(out, ' ');
        proof {
            assert(cells@.take(i + 1).drop_last() =~= cells@.take(i as int));
            assert(cells_model(cells@.take(i + 1)).drop_last() =~= cells_model(cells@.take(i as int)));
            assert(out@ =~= start + cells_text(cells_model(cells@.take(i + 1))));
        }
    }
    assert(cells@.take(cells@.len() as int) =~= cells@);
}

fn push_rows_text(out: &mut String, rows: &Vec<Vec<String>>)
    ensures
        final(out)@ == old(out)@ + rows_text(rows_model(rows@)),
{
    let ghost start: Seq<char> = out@;
    for i in 0..rows.len()
        invariant
            out@ == start + rows_text(rows_model(rows@.take(i as int))),
    {
        push_cells_text(out, &rows[i]);
        push_char(out, '\n');
        proof {
            assert(rows_model(rows@.take(i + 1)).drop_last() =~= rows_model(rows@.take(i as int)));
            assert(out@ =~= start + rows_text(rows_model(rows@.take(i + 1))));
        }
    }
    assert(rows@.take(rows@.len() as int) =~= rows@);
}

fn collect_text(nodes: &Vec<TreeNode>) -> (out: String)
    ensures
        out@ == tree_text(nodes_model(nodes@)),
    decreases nodes@,
{
    let mut out: String = String::new();
    for i in 0..nodes.len()
        invariant
            out@ == tree_text(nodes_model(nodes@.take(i as int))),
    {
        let node: &TreeNode = &nodes[i];
        match &node.inner {
            NodeInner::Heading { text, .. } => {
                out.append(text.as_str());
                push_char(&mut out, '\n');
            },
            NodeInner::Text { content } => {
                out.append(content.as_str());
                push_char(&mut out, '\n');
            },
            NodeInner::DataGrid { headers, rows } => {
                push_cells_text(&mut out, headers);
                push_char(&mut out, '\n');
                push_rows_text(&mut out, rows);
            },
            NodeInner::Container { children } => {
                let sub: String = collect_text(children);
                out.append(sub.as_str());
            },
        }
        proof {
            lemma_nodes_model_take(nodes@, i as int);
            lemma_tree_text_push(nodes_model(nodes@.take(i as int)), node_model(nodes@[i as int]));
            assert(out@ =~= tree_text(nodes_model(nodes@.take(i + 1))));
        }
    }
    assert(nodes@.take(nodes@.len() as int) =~= nodes@);
    out
}

fn push_attrs(out: &mut String, meta: &NodeRef, with_class: bool)
    ensures
        final(out)@ == old(out)@ + id_attr(meta@) + (if with_class {
            class_attr(meta@)
        } else {
            Seq::empty()
        }),
{
    let ghost start: Seq<char> = out@;
    if let Some(id) = &meta.id {
        out.append(" id=\"");
        out.append(id.as_str());
        out.append("\"");
    }
    let ghost mid: Seq<char> = out@;
    assert(mid =~= start + id_attr(meta@));
    if with_class {
        if let Some(c) = &meta.class {
            out.append(" class=\"");
            out.append(c.as_str());
            out.append("\"");
        }
        assert(out@ =~= mid + class_attr(meta@));
    } else {
        assert(out@ =~= mid + Seq::<char>::empty());
    }
}

fn push_header_cells(out: &mut String, cells: &Vec<String>)
    ensures
        final(out)@ == old(out)@ + header_cells_html(cells_model(cells@)),
{
    let ghost start: Seq<char> = out@;
    for i in 0..cells.len()
        invariant
            out@ == start + header_cells_html(cells_model(cells@.take(i as int))),
    {
        out.append("<th>");
        push_escaped(out, cells[i].as_str());
        out.append("</th>");
        proof {
            assert(cells_model(cells@.take(i + 1)).drop_last() =~= cells_model(cells@.take(i as int)));
            assert(out@ =~= start + header_cells_html(cells_model(cells@.take(i + 1))));
        }
    }
    assert(cells@.take(cells@.len() as int) =~= cells@);
}

fn push_data_cells(out: &mut String, cells: &Vec<String>)
    ensures
        final(out)@ == old(out)@ + data_cells_html(cells_model(cells@)),
{
    let ghost start: Seq<char> = out@;
    for i in 0..cells.len()
        invariant
            out@ == start + data_cells_html(cells_model(cells@.take(i as int))),
    {
        out.append("<td>");
        push_escaped(out, cells[i].as_str());
        out.append("</td>");
        proof {
            assert(cells_model(cells@.take(i + 1)).drop_last() =~= cells_model(cells@.take(i as int)));
            assert(out@ =~= start + data_cells_html(cells_model(cells@.take(i + 1))));
        }
    }
    assert(cells@.take(cells@.len() as int) =~= cells@);
}

fn push_rows_html(out: &mut String, rows: &Vec<Vec<String>>)
    ensures
        final(out)@ == old(out)@ + rows_html(rows_model(rows@)),
{
    let ghost start: Seq<char> = out@;
    for i in 0..rows.len()
        invariant
            out@ == start + rows_html(rows_model(rows@.take(i as int))),
    {
        out.append("<tr>");
        push_data_cells(out, &rows[i]);
        out.append("</tr>");
        proof {
            assert(rows_model(rows@.take(i + 1)).drop_last() =~= rows_model(rows@.take(i as int)));
            assert(out@ =~= start + rows_html(rows_model(rows@.take(i + 1))));
        }
    }
    assert(rows@.take(rows@.len() as int) =~= rows@);
}

fn push_node_html(out: &mut String, node: &TreeNode)
    ensures
        final(out)@ == old(out)@ + node_html(node_model(*node)),
    decreases node,
{
    let ghost before: Seq<char> = out@;
    match &node.inner {
        NodeInner::Heading { level, text } => {
            out.append("<h");
            push_decimal(out, *level as u64);
            push_attrs(out, &node.meta, false);
            out.append(">");
            push_escaped(out, text.as_str());
            out.append("</h");
            push_decimal(out, *level as u64);
            out.append(">");
            assert(out@ =~= before + node_html(node_model(*node)));
        },
        NodeInner::Text { content } => {
            out.append("<pre");
            push_attrs(out, &node.meta, true);
            out.append(">");
            push_escaped(out, content.as_str());
            out.append("</pre>");
            assert(out@ =~= before + node_html(node_model(*node)));
        },
        NodeInner::DataGrid { headers, rows } => {
            out.append("<table");
            push_attrs(out, &node.meta, true);
            out.append(" data-node-type=\"DataGrid\"><thead><tr>");
            push_header_cells(out, headers);
            out.append("</tr></thead><tbody>");
            push_rows_html(out, rows);
            out.append("</tbody></table>");
            assert(out@ =~= before + node_html(node_model(*node)));
        },
        NodeInner::Container { children } => {
            out.append("<div");
            push_attrs(out, &node.meta, true);
            out.append(">");
            let sub: String = render_nodes(children);
            out.append(sub.as_str());
            out.append("</div>");
            assert(out@ =~= before + node_html(node_model(*node)));
        },
    }
}

fn render_nodes(nodes: &Vec<TreeNode>) -> (out: String)
    ensures
        out@ == tree_html(nodes_model(nodes@)),
    decreases nodes@,
{
    let mut out: String = String::new();
    for i in 0..nodes.len()
        invariant
            out@ == tree_html(nodes_model(nodes@.take(i as int))),
    {
        push_node_html(&mut out, &nodes[i]);
        proof {
            lemma_nodes_model_take(nodes@, i as int);
            lemma_tree_html_push(nodes_model(nodes@.take(i as int)), node_model(nodes@[i as int]));
        }
    }
    assert(nodes@.take(nodes@.len() as int) =~= nodes@);
    out
}

impl<T> UITree<T> {
    /// All human-readable text of the tree in depth-first order: headings and
    /// text nodes as lines, grid cells followed by spaces with a line break
    /// after the header row and after each row.
    pub fn text_content(&self) -> (s: String)
        ensures
            s@ == tree_text(self@),
    {
        collect_text(&self.nodes)
    }
}

fn id_string(k: usize) -> (s: String)
    ensures
        s@ == id_text(k as nat),
{
    let mut s: String = String::new();
    push_char(&mut s, 'n');
    push_decimal(&mut s, k as u64);
    s
}

fn with_ids(nodes: Vec<TreeNode>, counter: usize) -> (res: (Vec<TreeNode>, usize))
    requires
        counter + tree_count(nodes_model(nodes@)) <= usize::MAX,
    ensures
        nodes_model(res.0@) == tree_with_ids(nodes_model(nodes@), counter as nat),
        res.1 == counter + tree_count(nodes_model(nodes@)),
    decreases nodes@,
{
    let ghost all: Seq<TreeNode> = nodes@;
    let mut out: Vec<TreeNode> = Vec::new();
    let mut c: usize = counter;
    for node in it: nodes
        invariant
            it.seq() == all,
            counter + tree_count(nodes_model(all)) <= usize::MAX,
            c == counter + tree_count(nodes_model(all.take(it.index() as int))),
            nodes_model(out@) == tree_with_ids(nodes_model(all.take(it.index() as int)), counter as nat),
    {
        let ghost i: int = it.index() as int;
        proof {
            lemma_nodes_model_take(all, i);
            lemma_tree_count_push(nodes_model(all.take(i)), node_model(all[i]));
            lemma_nodes_model(all);
            lemma_nodes_model(all.take(i + 1));
            assert forall|j: int| 0 <= j < i + 1 implies #[trigger] nodes_model(all.take(i + 1))[j] == nodes_model(all).take(i + 1)[j] by {
                assert(all.take(i + 1)[j] == all[j]);
            }
            assert(nodes_model(all.take(i + 1)) =~= nodes_model(all).take(i + 1));
            lemma_tree_count_prefix(nodes_model(all), i + 1);
        }
        let TreeNode { inner, meta } = node;
        let mut meta: NodeRef = meta;
        meta.id = Some(id_string(c));
        c = c + 1;
        let new_inner: NodeInner = match inner {
            NodeInner::Container { children } => {
                let (ch, c2): (Vec<TreeNode>, usize) = with_ids(children, c);
                c = c2;
                NodeInner::Container { children: ch }
            },
            other => other,
        };
        let ghost new_node: TreeNode = TreeNode { inner: new_inner, meta };
        let ghost old_out: Seq<TreeNode> = out@;
        out.push(TreeNode { inner: new_inner, meta });
        proof {
            lemma_nodes_model_push(old_out, new_node);
        }
    }
    assert(all.take(all.len() as int) =~= all);
    (out, c)
}

impl<T> UITree<T> {
    /// Stamps every node with a unique id `n0`, `n1`, … in depth-first
    /// pre-order.
    pub fn assign_ids(&mut self)
        requires
            tree_count(old(self)@) <= usize::MAX,
        ensures
            final(self)@ == tree_with_ids(old(self)@, 0),
    {
        let mut nodes: Vec<TreeNode> = Vec::new();
        std::mem::swap(&mut nodes, &mut self.nodes);
        let (stamped, _count): (Vec<TreeNode>, usize) = with_ids(nodes, 0);
        self.nodes = stamped;
    }
}

fn clone_strings(v: &Vec<String>) -> (r: Vec<String>)
    ensures
        cells_model(r@) == cells_model(v@),
{
    let mut r: Vec<String> = Vec::new();
    for i in 0..v.len()
        invariant
            r@.len() == i,
            forall|j: int| 0 <= j < i ==> #[trigger] r@[j]@ == v@[j]@,
    {
        r.push(v[i].clone());
    }
    assert(cells_model(r@) =~= cells_model(v@));
    r
}

fn clone_opt(o: &Option<String>) -> (r: Option<String>)
    ensures
        opt_view(r) == opt_view(*o),
{
    match o {
        Some(s) => Some(s.clone()),
        None => None,
    }
}

fn clone_meta(m: &NodeRef) -> (r: NodeRef)
    ensures
        r@ == m@,
{
    let mut params: Vec<(String, String)> = Vec::new();
    for i in 0..m.ai_params.len()
        invariant
            params@.len() == i,
            forall|j: int| #![trigger params@[j]] 0 <= j < i ==> params@[j].0@ == m.ai_params@[j].0@ && params@[j].1@ == m.ai_params@[j].1@,
    {
        let p: &(String, String) = &m.ai_params[i];
        let k: String = p.0.clone();
        let v: String = p.1.clone();
        params.push((k, v));
        assert(params@[i as int].0@ == m.ai_params@[i as int].0@);
    }
    let r: NodeRef = NodeRef {
        ai_action: clone_opt(&m.ai_action),
        ai_params: params,
        ai_description: clone_opt(&m.ai_description),
        class: clone_opt(&m.class),
        id: clone_opt(&m.id),
    };
    assert(r@.ai_params =~= m@.ai_params);
    r
}

fn clone_node(n: &TreeNode) -> (r: TreeNode)
    ensures
        node_model(r) == node_model(*n),
    decreases n,
{
    let inner: NodeInner = match &n.inner {
        NodeInner::Heading { level, text } => NodeInner::Heading { level: *level, text: text.clone() },
        NodeInner::Text { content } => NodeInner::Text { content: content.clone() },
        NodeInner::DataGrid { headers, rows } => {
            let hs: Vec<String> = clone_strings(headers);
            let mut rs: Vec<Vec<String>> = Vec::new();
            for i in 0..rows.len()
                invariant
                    rs@.len() == i,
                    forall|j: int| 0 <= j < i ==> #[trigger] cells_model(rs@[j]@) == cells_model(rows@[j]@),
            {
                rs.push(clone_strings(&rows[i]));
            }
            assert(rows_model(rs@) =~= rows_model(rows@));
            NodeInner::DataGrid { headers: hs, rows: rs }
        },
        NodeInner::Container { children } => NodeInner::Container { children: clone_nodes(children) },
    };
    TreeNode { inner, meta: clone_meta(&n.meta) }
}

fn clone_nodes(nodes: &Vec<TreeNode>) -> (r: Vec<TreeNode>)
    ensures
        nodes_model(r@) == nodes_model(nodes@),
    decreases nodes@,
{
    let mut r: Vec<TreeNode> = Vec::new();
    for i in 0..nodes.len()
        invariant
            nodes_model(r@) == nodes_model(nodes@.take(i as int)),
    {
        let c: TreeNode = clone_node(&nodes[i]);
        let ghost prev: Seq<TreeNode> = r@;
        r.push(c);
        proof {
            lemma_nodes_model_push(prev, c);
            lemma_nodes_model_take(nodes@, i as int);
        }
    }
    assert(nodes@.take(nodes@.len() as int) =~= nodes@);
    r
}

impl<T> UITree<T> {
    /// A copy of the tree with the same model.
    pub fn duplicate(&self) -> (t: UITree<T>)
        ensures
            t@ == self@,
    {
        UITree { nodes: clone_nodes(&self.nodes), _phantom: core::marker::PhantomData }
    }
}

/// What an agent sees of a tree: its human-readable text.
pub struct State {
    content: String,
}

impl View for State {
    type V = Seq<char>;

    closed spec fn view(&self) -> Seq<char> {
        self.content@
    }
}

/// Snapshot of a tree's text for agent consumption.
pub fn query_state<T>(tree: &UITree<T>) -> (st: State)
    ensures
        st@ == tree_text(tree@),
{
    State { content: tree.text_content() }
}

/// A rendered devtools report: the HTML body of a tree.
pub struct Report {
    html: String,
}

impl View for Report {
    type V = Seq<char>;

    closed spec fn view(&self) -> Seq<char> {
        self.html@
    }
}

/// Renders `tree` to HTML (the agent state does not influence the output).
pub fn render<T>(tree: &UITree<T>, _state: &State) -> (r: Report)
    ensures
        r@ == tree_html(tree@),
{
    Report { html: render_nodes(&tree.nodes) }
}

/// Wraps a report into a self-contained HTML page.
pub fn to_html(report: &Report) -> (page: String)
    ensures
        page@ == html_page(report@),
{
    let mut page: String = String::new();
    page.append("<!doctype html><html><head><meta charset=\"utf-8\"></head><body>");
    page.append(report.html.as_str());
    page.append("</body></html>");
    page
}

} // verus!
