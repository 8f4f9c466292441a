//! Properties of UI trees that relate several operations: what `assign_ids`
//! does to ids and to text, how splicing a tree into a container shows up in
//! text and HTML, how text and HTML follow concatenation, and which metadata
//! each of them reads.

use vstd::prelude::*;
use crate::text::{decimal, esc, law_unescape_inverts_esc, lemma_decimal_injective, unescape};
use crate::ui::{
    cells_text, class_attr, data_cells_html, header_cells_html, id_attr, id_text, rows_html, rows_text, node_count, node_html, node_text, node_with_ids, tree_count, tree_html, tree_text,
    tree_with_ids, KindModel, MetaModel, NodeModel,
};

verus! {

/// The ids of a node's subtree in depth-first pre-order.
pub open spec fn node_ids(m: NodeModel) -> Seq<Option<Seq<char>>>
    decreases m,
{
    seq![m.meta.id] + match m.kind {
        KindModel::Container { children } => tree_ids(children),
        _ => Seq::empty(),
    }
}

/// The ids of a sequence of trees in depth-first pre-order.
pub open spec fn tree_ids(ms: Seq<NodeModel>) -> Seq<Option<Seq<char>>>
    decreases ms,
{
    if ms.len() == 0 {
        Seq::empty()
    } else {
        tree_ids(ms.drop_last()) + node_ids(ms.last())
    }
}

/// The ids `n<k>`, `n<k+1>`, … of `count` consecutive nodes.
pub open spec fn consecutive_ids(k: nat, count: nat) -> Seq<Option<Seq<char>>> {
    Seq::new(count, |j: int| Some(id_text((k + j) as nat)))
}

proof fn lemma_node_ids(m: NodeModel, k: nat)
    ensures
        node_ids(node_with_ids(m, k)) == consecutive_ids(k, node_count(m)),
    decreases m,
{
    let n: NodeModel = node_with_ids(m, k);
    match m.kind {
        KindModel::Container { children } => {
            lemma_tree_ids(children, k + 1);
            assert(node_ids(n) =~= consecutive_ids(k, node_count(m)));
        },
        _ => {
            assert(node_ids(n) =~= consecutive_ids(k, node_count(m)));
        },
    }
}

proof fn lemma_tree_ids(ms: Seq<NodeModel>, k: nat)
    ensures
        tree_ids(tree_with_ids(ms, k)) == consecutive_ids(k, tree_count(ms)),
    decreases ms,
{
    if ms.len() == 0 {
        assert(tree_ids(tree_with_ids(ms, k)) =~= consecutive_ids(k, 0));
    } else {
        let prev: Seq<NodeModel> = tree_with_ids(ms.drop_last(), k);
        let c: nat = tree_count(ms.drop_last());
        let last: NodeModel = node_with_ids(ms.last(), k + c);
        lemma_tree_ids(ms.drop_last(), k);
        lemma_node_ids(ms.last(), k + c);
        assert(prev.push(last).drop_last() =~= prev);
        assert(tree_ids(tree_with_ids(ms, k)) =~= consecutive_ids(k, tree_count(ms)));
    }
}

proof fn lemma_id_text_injective(a: nat, b: nat)
    ensures
        id_text(a) == id_text(b) ==> a == b,
{
    if id_text(a) == id_text(b) {
        assert(id_text(a).drop_first() =~= decimal(a));
        assert(id_text(b).drop_first() =~= decimal(b));
        lemma_decimal_injective(a, b);
    }
}

/// Law: `assign_ids` stamps the nodes, in depth-first pre-order, with
/// `n0`, `n1`, … `n<count-1>`; in particular every node gets an id and no two
/// nodes share one.
pub proof fn law_assign_ids_unique(ms: Seq<NodeModel>)
    ensures
        tree_ids(tree_with_ids(ms, 0)) == consecutive_ids(0, tree_count(ms)),
        forall|i: int, j: int|
            0 <= i < tree_count(ms) && 0 <= j < tree_count(ms) && i != j ==> tree_ids(
                tree_with_ids(ms, 0),
            )[i] != tree_ids(tree_with_ids(ms, 0))[j],
{
    lemma_tree_ids(ms, 0);
    assert forall|i: int, j: int|
        0 <= i < tree_count(ms) && 0 <= j < tree_count(ms) && i != j implies tree_ids(
            tree_with_ids(ms, 0),
        )[i] != tree_ids(tree_with_ids(ms, 0))[j] by {
        lemma_id_text_injective(i as nat, j as nat);
    }
}

proof fn lemma_node_text_with_ids(m: NodeModel, k: nat)
    ensures
        node_text(node_with_ids(m, k)) == node_text(m),
    decreases m,
{
    match m.kind {
        KindModel::Container { children } => {
            lemma_tree_text_with_ids(children, k + 1);
        },
        _ => {},
    }
}

proof fn lemma_tree_text_with_ids(ms: Seq<NodeModel>, k: nat)
    ensures
        tree_text(tree_with_ids(ms, k)) == tree_text(ms),
    decreases ms,
{
    if ms.len() > 0 {
        let prev: Seq<NodeModel> = tree_with_ids(ms.drop_last(), k);
        let last: NodeModel = node_with_ids(ms.last(), k + tree_count(ms.drop_last()));
        lemma_tree_text_with_ids(ms.drop_last(), k);
        lemma_node_text_with_ids(ms.last(), k + tree_count(ms.drop_last()));
        assert(prev.push(last).drop_last() =~= prev);
    }
}

/// Law: stamping ids does not change a tree's text content.
pub proof fn law_assign_ids_keeps_text(ms: Seq<NodeModel>)
    ensures
        tree_text(tree_with_ids(ms, 0)) == tree_text(ms),
{
    lemma_tree_text_with_ids(ms, 0);
}

/// Law: splicing a tree into a container (as `with` and `container` do)
/// appends exactly that tree's text, and exactly its HTML inside a `<div>`.
pub proof fn law_splice_text_and_html(ms: Seq<NodeModel>, sub: Seq<NodeModel>, meta: MetaModel)
    ensures
        tree_text(ms.push(NodeModel { kind: KindModel::Container { children: sub }, meta })) == tree_text(ms)
            + tree_text(sub),
        tree_html(ms.push(NodeModel { kind: KindModel::Container { children: sub }, meta })) == tree_html(ms)
            + node_html(NodeModel { kind: KindModel::Container { children: sub }, meta }),
{
    let m: NodeModel = NodeModel { kind: KindModel::Container { children: sub }, meta };
    assert(ms.push(m).drop_last() =~= ms);
    assert(node_text(m) == tree_text(sub));
    assert(tree_text(ms.push(m)) == tree_text(ms) + node_text(m));
}

/// `m` with the metadata of every node of its subtree replaced by `f` of it.
pub open spec fn node_with_meta(m: NodeModel, f: spec_fn(MetaModel) -> MetaModel) -> NodeModel
    decreases m,
{
    NodeModel {
        kind: match m.kind {
            KindModel::Container { children } => KindModel::Container {
                children: tree_with_meta(children, f),
            },
            _ => m.kind,
        },
        meta: f(m.meta),
    }
}

/// A sequence of trees with the metadata of every node replaced by `f` of it.
pub open spec fn tree_with_meta(ms: Seq<NodeModel>, f: spec_fn(MetaModel) -> MetaModel) -> Seq<
    NodeModel,
>
    decreases ms,
{
    if ms.len() == 0 {
        Seq::empty()
    } else {
        tree_with_meta(ms.drop_last(), f).push(node_with_meta(ms.last(), f))
    }
}

/// `f` changes neither the id nor the class of any metadata: it touches the
/// AI annotations (action, parameters, description) at most.
pub open spec fn keeps_id_and_class(f: spec_fn(MetaModel) -> MetaModel) -> bool {
    forall|meta: MetaModel| #[trigger] f(meta).id == meta.id && f(meta).class == meta.class
}

proof fn lemma_node_text_meta(m: NodeModel, f: spec_fn(MetaModel) -> MetaModel)
    ensures
        node_text(node_with_meta(m, f)) == node_text(m),
    decreases m,
{
    match m.kind {
        KindModel::Container { children } => {
            lemma_tree_text_meta(children, f);
        },
        _ => {},
    }
}

proof fn lemma_tree_text_meta(ms: Seq<NodeModel>, f: spec_fn(MetaModel) -> MetaModel)
    ensures
        tree_text(tree_with_meta(ms, f)) == tree_text(ms),
    decreases ms,
{
    if ms.len() > 0 {
        let prev: Seq<NodeModel> = tree_with_meta(ms.drop_last(), f);
        lemma_tree_text_meta(ms.drop_last(), f);
        lemma_node_text_meta(ms.last(), f);
        assert(prev.push(node_with_meta(ms.last(), f)).drop_last() =~= prev);
    }
}

proof fn lemma_node_html_meta(m: NodeModel, f: spec_fn(MetaModel) -> MetaModel)
    requires
        keeps_id_and_class(f),
    ensures
        node_html(node_with_meta(m, f)) == node_html(m),
    decreases m,
{
    assert(f(m.meta).id == m.meta.id && f(m.meta).class == m.meta.class);
    assert(id_attr(f(m.meta)) == id_attr(m.meta));
    assert(class_attr(f(m.meta)) == class_attr(m.meta));
    match m.kind {
        KindModel::Container { children } => {
            lemma_tree_html_meta(children, f);
        },
        _ => {},
    }
}

proof fn lemma_tree_html_meta(ms: Seq<NodeModel>, f: spec_fn(MetaModel) -> MetaModel)
    requires
        keeps_id_and_class(f),
    ensures
        tree_html(tree_with_meta(ms, f)) == tree_html(ms),
    decreases ms,
{
    if ms.len() > 0 {
        let prev: Seq<NodeModel> = tree_with_meta(ms.drop_last(), f);
        lemma_tree_html_meta(ms.drop_last(), f);
        lemma_node_html_meta(ms.last(), f);
        assert(prev.push(node_with_meta(ms.last(), f)).drop_last() =~= prev);
    }
}

/// Law: a tree's text content reads no metadata at all: whatever is done to
/// the ids, classes and AI annotations of its nodes, the text stays the same.
pub proof fn law_text_ignores_metadata(ms: Seq<NodeModel>, f: spec_fn(MetaModel) -> MetaModel)
    ensures
        tree_text(tree_with_meta(ms, f)) == tree_text(ms),
{
    lemma_tree_text_meta(ms, f);
}

/// Law: the AI annotations never reach the HTML: two trees that differ only
/// in the AI action, parameters and description of their nodes render alike.
pub proof fn law_html_ignores_ai_metadata(ms: Seq<NodeModel>, f: spec_fn(MetaModel) -> MetaModel)
    requires
        keeps_id_and_class(f),
    ensures
        tree_html(tree_with_meta(ms, f)) == tree_html(ms),
{
    lemma_tree_html_meta(ms, f);
}

/// Law: text content and HTML follow concatenation: the text (the HTML) of
/// `a` followed by `b` is the text (the HTML) of `a` followed by that of `b`.
pub proof fn law_text_and_html_concatenate(a: Seq<NodeModel>, b: Seq<NodeModel>)
    ensures
        tree_text(a + b) == tree_text(a) + tree_text(b),
        tree_html(a + b) == tree_html(a) + tree_html(b),
    decreases b.len(),
{
    if b.len() == 0 {
        assert(a + b =~= a);
        assert(tree_text(a) + tree_text(b) =~= tree_text(a));
        assert(tree_html(a) + tree_html(b) =~= tree_html(a));
    } else {
        law_text_and_html_concatenate(a, b.drop_last());
        assert((a + b).drop_last() =~= a + b.drop_last());
        assert((a + b).last() == b.last());
        assert(tree_text(a + b) =~= tree_text(a) + tree_text(b));
        assert(tree_html(a + b) =~= tree_html(a) + tree_html(b));
    }
}

/// Law: a container contributes exactly its children's text, whatever its
/// metadata.
pub proof fn law_container_text(children: Seq<NodeModel>, meta: MetaModel)
    ensures
        tree_text(seq![NodeModel { kind: KindModel::Container { children }, meta }]) == tree_text(children),
{
    let one: Seq<NodeModel> = seq![NodeModel { kind: KindModel::Container { children }, meta }];
    assert(one.drop_last() =~= Seq::<NodeModel>::empty());
    assert(tree_text(one.drop_last()) == Seq::<char>::empty());
    assert(node_text(one.last()) == tree_text(children));
    assert(tree_text(one) =~= tree_text(children));
}

/// Law: the plain text of a row of cells is every cell, in order, each followed
/// by one space: the text of two runs of cells one after the other is the
/// text of the first run followed by that of the second, and one cell `c`
/// reads `c` and a space.
pub proof fn law_cells_text_concatenate(a: Seq<Seq<char>>, b: Seq<Seq<char>>, x: Seq<char>)
    ensures
        cells_text(a + b) == cells_text(a) + cells_text(b),
        cells_text(seq![x]) == x.push(' '),
    decreases b.len(),
{
    if b.len() == 0 {
        assert(a + b =~= a);
        assert(cells_text(a) + cells_text(b) =~= cells_text(a));
    } else {
        law_cells_text_concatenate(a, b.drop_last(), x);
        assert((a + b).drop_last() =~= a + b.drop_last());
        assert((a + b).last() == b.last());
        assert(cells_text(a + b) =~= cells_text(a) + cells_text(b));
    }
    let one: Seq<Seq<char>> = seq![x];
    assert(one.drop_last() =~= Seq::<Seq<char>>::empty());
    assert(cells_text(one.drop_last()) == Seq::<char>::empty());
    assert(cells_text(one) =~= x.push(' '));
}

/// Law: the plain text of grid rows holds every row, in row order, as one line:
/// the rows of `a` then `b` read as the text of `a` followed by that of `b`,
/// and a single row `r` reads as its cells' text and one line break (so
/// appending a row appends exactly its line).
pub proof fn law_rows_text_concatenate(a: Seq<Seq<Seq<char>>>, b: Seq<Seq<Seq<char>>>, x: Seq<Seq<char>>)
    ensures
        rows_text(a + b) == rows_text(a) + rows_text(b),
        rows_text(seq![x]) == cells_text(x).push('\n'),
    decreases b.len(),
{
    if b.len() == 0 {
        assert(a + b =~= a);
        assert(rows_text(a) + rows_text(b) =~= rows_text(a));
    } else {
        law_rows_text_concatenate(a, b.drop_last(), x);
        assert((a + b).drop_last() =~= a + b.drop_last());
        assert((a + b).last() == b.last());
        assert(rows_text(a + b) =~= rows_text(a) + rows_text(b));
    }
    let one: Seq<Seq<Seq<char>>> = seq![x];
    assert(one.drop_last() =~= Seq::<Seq<Seq<char>>>::empty());
    assert(rows_text(one.drop_last()) == Seq::<char>::empty());
    assert(rows_text(one) =~= cells_text(x).push('\n'));
}

/// Law: the header cells of a grid render every cell, in order, as one escaped
/// `<th>` element: the cells of `a` then `b` render as those of `a`
/// followed by those of `b`.
pub proof fn law_header_cells_html_concatenate(a: Seq<Seq<char>>, b: Seq<Seq<char>>, x: Seq<char>)
    ensures
        header_cells_html(a + b) == header_cells_html(a) + header_cells_html(b),
        header_cells_html(seq![x]) == "<th>"@ + esc(x) + "</th>"@,
    decreases b.len(),
{
    if b.len() == 0 {
        assert(a + b =~= a);
        assert(header_cells_html(a) + header_cells_html(b) =~= header_cells_html(a));
    } else {
        law_header_cells_html_concatenate(a, b.drop_last(), x);
        assert((a + b).drop_last() =~= a + b.drop_last());
        assert((a + b).last() == b.last());
        assert(header_cells_html(a + b) =~= header_cells_html(a) + header_cells_html(b));
    }
    let one: Seq<Seq<char>> = seq![x];
    assert(one.drop_last() =~= Seq::<Seq<char>>::empty());
    assert(header_cells_html(one.drop_last()) == Seq::<char>::empty());
    assert(header_cells_html(one) =~= "<th>"@ + esc(x) + "</th>"@);
}

/// Law: the data cells of a row render every cell, in order, as one escaped
/// `<td>` element: the cells of `a` then `b` render as those of `a`
/// followed by those of `b`.
pub proof fn law_data_cells_html_concatenate(a: Seq<Seq<char>>, b: Seq<Seq<char>>, x: Seq<char>)
    ensures
        data_cells_html(a + b) == data_cells_html(a) + data_cells_html(b),
        data_cells_html(seq![x]) == "<td>"@ + esc(x) + "</td>"@,
    decreases b.len(),
{
    if b.len() == 0 {
        assert(a + b =~= a);
        assert(data_cells_html(a) + data_cells_html(b) =~= data_cells_html(a));
    } else {
        law_data_cells_html_concatenate(a, b.drop_last(), x);
        assert((a + b).drop_last() =~= a + b.drop_last());
        assert((a + b).last() == b.last());
        assert(data_cells_html(a + b) =~= data_cells_html(a) + data_cells_html(b));
    }
    let one: Seq<Seq<char>> = seq![x];
    assert(one.drop_last() =~= Seq::<Seq<char>>::empty());
    assert(data_cells_html(one.drop_last()) == Seq::<char>::empty());
    assert(data_cells_html(one) =~= "<td>"@ + esc(x) + "</td>"@);
}

/// Law: the body of a grid renders every row, in row order, as one `<tr>`
/// element: the rows of `a` then `b` render as those of `a` followed by
/// those of `b`, and a single row `r` as `<tr>`, its cells and `</tr>` (so
/// appending a row appends exactly its element).
pub proof fn law_rows_html_concatenate(a: Seq<Seq<Seq<char>>>, b: Seq<Seq<Seq<char>>>, x: Seq<Seq<char>>)
    ensures
        rows_html(a + b) == rows_html(a) + rows_html(b),
        rows_html(seq![x]) == "<tr>"@ + data_cells_html(x) + "</tr>"@,
    decreases b.len(),
{
    if b.len() == 0 {
        assert(a + b =~= a);
        assert(rows_html(a) + rows_html(b) =~= rows_html(a));
    } else {
        law_rows_html_concatenate(a, b.drop_last(), x);
        assert((a + b).drop_last() =~= a + b.drop_last());
        assert((a + b).last() == b.last());
        assert(rows_html(a + b) =~= rows_html(a) + rows_html(b));
    }
    let one: Seq<Seq<Seq<char>>> = seq![x];
    assert(one.drop_last() =~= Seq::<Seq<Seq<char>>>::empty());
    assert(rows_html(one.drop_last()) == Seq::<char>::empty());
    assert(rows_html(one) =~= "<tr>"@ + data_cells_html(x) + "</tr>"@);
}

/// Law: appending a row to a data grid appends exactly that row's line to
/// the grid's text (its cells, each followed by a space, and a line break),
/// whatever the grid's headers, earlier rows and metadata.
pub proof fn law_grid_row_appends_line(
    headers: Seq<Seq<char>>,
    rows: Seq<Seq<Seq<char>>>,
    r: Seq<Seq<char>>,
    meta: MetaModel,
)
    ensures
        node_text(NodeModel { kind: KindModel::DataGrid { headers, rows: rows.push(r) }, meta }) == node_text(
            NodeModel { kind: KindModel::DataGrid { headers, rows }, meta },
        ) + cells_text(r).push('\n'),
{
    law_rows_text_concatenate(rows, seq![r], r);
    assert(rows + seq![r] =~= rows.push(r));
    let h: Seq<char> = cells_text(headers).push('\n');
    assert(h + rows_text(rows.push(r)) =~= h + rows_text(rows) + cells_text(r).push('\n'));
}

/// Law: what each kind of node contributes to the text: a heading its text
/// and a line break, a text node its content and a line break, a grid its
/// header line then one line per row, a container its children's text.
pub proof fn law_node_text_by_kind(m: NodeModel)
    ensures
        match m.kind {
            KindModel::Heading { text, .. } => node_text(m) == text.push('\n'),
            KindModel::Text { content } => node_text(m) == content.push('\n'),
            KindModel::DataGrid { headers, rows } => node_text(m) == cells_text(headers).push('\n') + rows_text(rows),
            KindModel::Container { children } => node_text(m) == tree_text(children),
        },
{
}

/// Law: a text node renders as one `<pre>` element, with its id and class
/// attributes, whose body is the escaped content, which reads back to the
/// content; a heading renders its escaped text inside `<h<level>>`.
pub proof fn law_node_html_escapes_content(m: NodeModel)
    ensures
        m.kind matches KindModel::Text { content } ==> node_html(m) == "<pre"@ + id_attr(m.meta) + class_attr(
            m.meta,
        ) + ">"@ + esc(content) + "</pre>"@ && unescape(esc(content)) == content,
        m.kind matches KindModel::Heading { level, text } ==> node_html(m) == "<h"@ + decimal(level as nat)
            + id_attr(m.meta) + ">"@ + esc(text) + "</h"@ + decimal(level as nat) + ">"@ && unescape(esc(text))
            == text,
{
    match m.kind {
        KindModel::Text { content } => law_unescape_inverts_esc(content),
        KindModel::Heading { text, .. } => law_unescape_inverts_esc(text),
        _ => {},
    }
}

} // verus!
