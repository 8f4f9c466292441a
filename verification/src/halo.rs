//! The reactor view: character grids turned into text, and the layout of
//! the live reactor overview tree (title, shot line, gauge row, equilibrium
//! summary, poloidal and toroidal pictures).

use vstd::prelude::*;
use crate::text::{decimal, push_char, push_decimal};
use crate::ui::{empty_meta, node_text, tree_text, KindModel, NodeBuilder, NodeModel, UITree};
use crate::ui_laws::law_text_and_html_concatenate;
use crate::widgets::{ai_meta, joined, node};

verus! {

/// The text of a character grid: its rows joined with line breaks.
pub open spec fn grid_text(grid: Seq<Vec<char>>) -> Seq<char> {
    joined(grid.map_values(|row: Vec<char>| row@))
}

/// Turns a character grid into text, one line per row.
pub fn grid_to_text(grid: &[Vec<char>]) -> (s: String)
    ensures
        s@ == grid_text(grid@),
{
    let ghost views: Seq<Seq<char>> = grid@.map_values(|row: Vec<char>| row@);
    let mut s: String = String::new();
    for i in 0..grid.len()
        invariant
            views == grid@.map_values(|row: Vec<char>| row@),
            s@ == joined(views.take(i as int)),
    {
        if i > 0 {
            push_char(&mut s, '\n');
        }
        let ghost before: Seq<char> = s@;
        let row: &Vec<char> = &grid[i];
        for j in 0..row.len()
            invariant
                s@ == before + row@.take(j as int),
        {
            push_char(&mut s, row[j]);
            assert(row@.take(j + 1) =~= row@.take(j as int).push(row@[j as int]));
            assert(s@ =~= before + row@.take(j + 1));
        }
        proof {
            assert(row@.take(row@.len() as int) =~= row@);
            assert(views[i as int] == row@);
            assert(views.take(i + 1).drop_last() =~= views.take(i as int));
            if i == 0 {
                assert(views.take(1) =~= seq![views[0]]);
            }
            assert(s@ =~= joined(views.take(i + 1)));
        }
    }
    assert(views.take(grid@.len() as int) =~= views);
    s
}

/// The shot line of the overview: `Shot #<shot> — live diagnostics`.
pub open spec fn shot_line(shot: nat) -> Seq<char> {
    "Shot #"@ + decimal(shot) + " — live diagnostics"@
}

/// The gauge row: one container per gauge tree.
pub open spec fn gauge_row_nodes(gauges: Seq<Seq<NodeModel>>) -> Seq<NodeModel> {
    gauges.map_values(|g: Seq<NodeModel>| node(KindModel::Container { children: g }, empty_meta()))
}

/// The reactor overview tree.
pub open spec fn reactor_view_model(
    shot: nat,
    gauges: Seq<Seq<NodeModel>>,
    equilibrium: Seq<char>,
    poloidal: Seq<char>,
    toroidal: Seq<char>,
) -> Seq<NodeModel> {
    seq![
        node(
            KindModel::Heading { level: 1, text: "TPT Halo — Reactor View"@ },
            ai_meta("read_overview"@, seq![], Some("Live tokamak reactor overview"@)),
        ),
        node(KindModel::Heading { level: 2, text: shot_line(shot) }, empty_meta()),
        node(KindModel::Container { children: gauge_row_nodes(gauges) }, empty_meta()),
        node(KindModel::Heading { level: 3, text: equilibrium }, empty_meta()),
        node(KindModel::Heading { level: 3, text: "Poloidal cross-section (R–Z)"@ }, empty_meta()),
        node(
            KindModel::Text { content: poloidal },
            ai_meta("read_poloidal"@, seq![], Some("Poloidal cross-section of the plasma boundary"@)),
        ),
        node(KindModel::Heading { level: 3, text: "Toroidal projection"@ }, empty_meta()),
        node(
            KindModel::Text { content: toroidal },
            ai_meta("read_toroidal"@, seq![], Some("Toroidal projection of the reactor"@)),
        ),
    ]
}

/// Lays out the reactor overview: the gauge trees side by side, the
/// equilibrium summary line, and the poloidal and toroidal pictures as text.
pub fn reactor_view_tree(
    shot: u64,
    gauges: Vec<UITree<()>>,
    equilibrium: &str,
    poloidal: &str,
    toroidal: &str,
) -> (t: UITree<()>)
    ensures
        t@ == reactor_view_model(
            shot as nat,
            gauges@.map_values(|g: UITree<()>| g@),
            equilibrium@,
            poloidal@,
            toroidal@,
        ),
{
    let ghost gv: Seq<Seq<NodeModel>> = gauges@.map_values(|g: UITree<()>| g@);
    let mut b: NodeBuilder = NodeBuilder::new();
    b.heading(1, "TPT Halo — Reactor View").ai_action("read_overview").ai_description(
        "Live tokamak reactor overview",
    );
    assert(b@[0].meta =~~= ai_meta("read_overview"@, seq![], Some("Live tokamak reactor overview"@)));
    let mut line: String = String::new();
    line.append("Shot #");
    push_decimal(&mut line, shot);
    line.append(" — live diagnostics");
    b.heading(2, line.as_str());
    let mut row: NodeBuilder = NodeBuilder::new();
    for g in it: gauges
        invariant
            it.seq() == gauges@,
            gv == gauges@.map_values(|g: UITree<()>| g@),
            row@ == gauge_row_nodes(gv.take(it.index() as int)),
    {
        let ghost i: int = it.index() as int;
        let ghost prev: Seq<NodeModel> = row@;
        row.with(g);
        proof {
            assert(gv[i] == g@);
            assert(gv.take(i + 1) =~= gv.take(i).push(g@));
            assert(row@ =~= gauge_row_nodes(gv.take(i + 1)));
        }
    }
    assert(gv.take(gauges@.len() as int) =~= gv);
    b.with(UITree::<()>::from_builder(row));
    b.heading(3, equilibrium);
    b.heading(3, "Poloidal cross-section (R–Z)");
    b.text(poloidal).ai_action("read_poloidal").ai_description(
        "Poloidal cross-section of the plasma boundary",
    );
    assert(b@[5].meta =~~= ai_meta("read_poloidal"@, seq![], Some("Poloidal cross-section of the plasma boundary"@)));
    b.heading(3, "Toroidal projection");
    b.text(toroidal).ai_action("read_toroidal").ai_description("Toroidal projection of the reactor");
    assert(b@[7].meta =~~= ai_meta("read_toroidal"@, seq![], Some("Toroidal projection of the reactor"@)));
    let t: UITree<()> = UITree::from_builder(b);
    assert(t@ =~~= reactor_view_model(shot as nat, gv, equilibrium@, poloidal@, toroidal@));
    t
}

/// Law: each picture sits under its own heading: node 4 is the heading
/// `Poloidal cross-section (R–Z)` and node 5, right after it, holds the
/// poloidal picture (tagged `read_poloidal`); node 6 is the heading
/// `Toroidal projection` and node 7 holds the toroidal picture (tagged
/// `read_toroidal`). The overview's text therefore ends with each heading's
/// line followed by its own picture.
pub proof fn law_pictures_under_their_headings(
    shot: nat,
    gauges: Seq<Seq<NodeModel>>,
    equilibrium: Seq<char>,
    poloidal: Seq<char>,
    toroidal: Seq<char>,
)
    ensures
        ({
            let m = reactor_view_model(shot, gauges, equilibrium, poloidal, toroidal);
            &&& m.len() == 8
            &&& m[4].kind == KindModel::Heading { level: 3, text: "Poloidal cross-section (R–Z)"@ }
            &&& m[5].kind == KindModel::Text { content: poloidal }
            &&& m[5].meta.ai_action == Some("read_poloidal"@)
            &&& m[6].kind == KindModel::Heading { level: 3, text: "Toroidal projection"@ }
            &&& m[7].kind == KindModel::Text { content: toroidal }
            &&& m[7].meta.ai_action == Some("read_toroidal"@)
            &&& tree_text(m) == tree_text(m.take(4)) + "Poloidal cross-section (R–Z)"@.push('\n')
                + poloidal.push('\n') + "Toroidal projection"@.push('\n') + toroidal.push('\n')
        }),
{
    let m: Seq<NodeModel> = reactor_view_model(shot, gauges, equilibrium, poloidal, toroidal);
    let tail: Seq<NodeModel> = m.skip(4);
    law_text_and_html_concatenate(m.take(4), tail);
    assert(m.take(4) + tail =~= m);
    let t3: Seq<NodeModel> = tail.drop_last();
    let t2: Seq<NodeModel> = t3.drop_last();
    let t1: Seq<NodeModel> = t2.drop_last();
    assert(t1.drop_last() =~= Seq::<NodeModel>::empty());
    assert(t1.last() == m[4] && t2.last() == m[5] && t3.last() == m[6] && tail.last() == m[7]);
    assert(node_text(m[4]) == "Poloidal cross-section (R–Z)"@.push('\n'));
    assert(node_text(m[5]) == poloidal.push('\n'));
    assert(node_text(m[6]) == "Toroidal projection"@.push('\n'));
    assert(node_text(m[7]) == toroidal.push('\n'));
    assert(tree_text(t1.drop_last()) == Seq::<char>::empty());
    assert(tree_text(t1) =~= node_text(m[4]));
    assert(tree_text(t2) == tree_text(t1) + node_text(m[5]));
    assert(tree_text(t3) == tree_text(t2) + node_text(m[6]));
    assert(tree_text(tail) == tree_text(t3) + node_text(m[7]));
    assert(tree_text(tail) =~= "Poloidal cross-section (R–Z)"@.push('\n') + poloidal.push('\n')
        + "Toroidal projection"@.push('\n') + toroidal.push('\n'));
    assert(tree_text(m) =~= tree_text(m.take(4)) + "Poloidal cross-section (R–Z)"@.push('\n')
        + poloidal.push('\n') + "Toroidal projection"@.push('\n') + toroidal.push('\n'));
}

/// Law: the overview keeps the gauges as given: node 1 is the shot line,
/// node 2 holds one container per gauge tree, in the order given and each
/// holding exactly that tree, and node 3 is the equilibrium summary.
pub proof fn law_overview_gauges_in_order(
    shot: nat,
    gauges: Seq<Seq<NodeModel>>,
    equilibrium: Seq<char>,
    poloidal: Seq<char>,
    toroidal: Seq<char>,
)
    ensures
        ({
            let m = reactor_view_model(shot, gauges, equilibrium, poloidal, toroidal);
            &&& m[1].kind == KindModel::Heading { level: 2, text: "Shot #"@ + decimal(shot) + " — live diagnostics"@ }
            &&& m[2].kind is Container
            &&& m[2].kind->children.len() == gauges.len()
            &&& forall|i: int|
                0 <= i < gauges.len() ==> #[trigger] m[2].kind->children[i].kind == KindModel::Container {
                    children: gauges[i],
                }
            &&& m[3].kind == KindModel::Heading { level: 3, text: equilibrium }
        }),
{
}

} // verus!
