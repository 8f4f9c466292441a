//! UI widgets on top of the widget tree: gauge readouts, a gauge dashboard
//! and a diagnostic chart, each carrying AI metadata so an agent can read the
//! plasma state. The numbers they show are formatted by the caller; these
//! functions decide the layout, the alarm badge and the metadata.

use vstd::prelude::*;
use crate::ui::{
    empty_meta, html_page, query_state, render, node_text, tree_count, tree_html, tree_text, tree_with_ids, KindModel, MetaModel,
    NodeBuilder, NodeModel, Report, State, UITree,
};
use crate::text::push_char;

verus! {

/// The block character used for the filled part of a bar.
pub open spec fn full_block() -> char {
    '\u{2588}'
}

/// A bar of `width` cells whose first `filled` cells are full blocks and the
/// rest spaces.
pub open spec fn bar_model(filled: nat, width: nat) -> Seq<char> {
    Seq::new(width, |i: int| if i < filled { full_block() } else { ' ' })
}

/// Renders a horizontal bar of `width` columns with `filled` full blocks.
pub fn bar_text(filled: usize, width: usize) -> (s: String)
    ensures
        s@ == bar_model(filled as nat, width as nat),
{
    let mut s: String = String::new();
    for i in 0..width
        invariant
            s@ == bar_model(filled as nat, i as nat),
    {
        if i < filled {
            push_char(&mut s, '\u{2588}');
        } else {
            push_char(&mut s, ' ');
        }
        assert(s@ =~= bar_model(filled as nat, (i + 1) as nat));
    }
    s
}

/// The badge of a reading: `ALARM` outside the safe band, else `OK`.
pub open spec fn state_text(alarm: bool) -> Seq<char> {
    if alarm {
        "ALARM"@
    } else {
        "OK"@
    }
}

/// The badge text for a reading.
pub fn gauge_state(alarm: bool) -> (s: &'static str)
    ensures
        s@ == state_text(alarm),
{
    if alarm {
        "ALARM"
    } else {
        "OK"
    }
}

/// Lines joined with `\n` between them (no trailing line break).
pub open spec fn joined(lines: Seq<Seq<char>>) -> Seq<char>
    decreases lines.len(),
{
    if lines.len() == 0 {
        Seq::empty()
    } else if lines.len() == 1 {
        lines[0]
    } else {
        joined(lines.drop_last()).push('\n') + lines.last()
    }
}

/// Joins lines with `\n` between them.
pub fn join_lines(lines: &Vec<String>) -> (s: String)
    ensures
        s@ == joined(lines@.map_values(|l: String| l@)),
{
    let ghost views: Seq<Seq<char>> = lines@.map_values(|l: String| l@);
    let mut s: String = String::new();
    for i in 0..lines.len()
        invariant
            views == lines@.map_values(|l: String| l@),
            s@ == joined(views.take(i as int)),
    {
        if i > 0 {
            push_char(&mut s, '\n');
        }
        s.append(lines[i].as_str());
        proof {
            assert(views.take(i + 1).drop_last() =~= views.take(i as int));
            if i == 0 {
                assert(views.take(1) =~= seq![views[0]]);
            }
            assert(s@ =~= joined(views.take(i + 1)));
        }
    }
    assert(views.take(lines@.len() as int) =~= views);
    s
}

/// Law: joining keeps every line, in order, with exactly one `\n` between
/// neighbours: joining `a` then `b` (both non-empty) is joining `a`, a line
/// break, and joining `b`; a single line is kept as it is.
pub proof fn law_joined_concatenate(a: Seq<Seq<char>>, b: Seq<Seq<char>>, x: Seq<char>)
    requires
        a.len() > 0,
        b.len() > 0,
    ensures
        joined(a + b) == joined(a).push('\n') + joined(b),
        joined(seq![x]) == x,
    decreases b.len(),
{
    assert((a + b).drop_last() =~= a + b.drop_last());
    assert((a + b).last() == b.last());
    if b.len() == 1 {
        assert(a + b.drop_last() =~= a);
        assert(joined(b) == b[0]);
    } else {
        law_joined_concatenate(a, b.drop_last(), x);
        assert(joined(a + b) =~= joined(a).push('\n') + joined(b));
    }
}

/// A node with the given kind and metadata.
pub open spec fn node(kind: KindModel, meta: MetaModel) -> NodeModel {
    NodeModel { kind, meta }
}

/// Metadata with an action, parameters and an optional description.
pub open spec fn ai_meta(
    action: Seq<char>,
    params: Seq<(Seq<char>, Seq<char>)>,
    description: Option<Seq<char>>,
) -> MetaModel {
    MetaModel { ai_action: Some(action), ai_params: params, ai_description: description, ..empty_meta() }
}

/// The reading line of a gauge: `<bar> <value>  [<badge>]`.
pub open spec fn gauge_line(bar: Seq<char>, value_text: Seq<char>, alarm: bool) -> Seq<char> {
    bar + " "@ + value_text + "  ["@ + state_text(alarm) + "]"@
}

/// The tree of one gauge readout: a level-3 heading with the title and a
/// text line with the bar, value and badge, both tagged `read_gauge`.
pub open spec fn gauge_widget_model(title: Seq<char>, bar: Seq<char>, value_text: Seq<char>, alarm: bool) -> Seq<NodeModel> {
    seq![
        node(
            KindModel::Heading { level: 3, text: title },
            ai_meta("read_gauge"@, seq![("metric"@, title)], Some("Live reading for "@ + title)),
        ),
        node(
            KindModel::Text { content: gauge_line(bar, value_text, alarm) },
            ai_meta(
                "read_gauge"@,
                seq![("metric"@, title), ("value"@, value_text), ("state"@, state_text(alarm))],
                None,
            ),
        ),
    ]
}

/// The widget tree for one gauge reading: `bar` is the fill bar and
/// `value_text` the formatted value; `alarm` selects the badge.
pub fn gauge_widget_tree(title: &str, bar: &str, value_text: &str, alarm: bool) -> (t: UITree<()>)
    ensures
        t@ == gauge_widget_model(title@, bar@, value_text@, alarm),
{
    let state: &'static str = gauge_state(alarm);
    let mut desc: String = String::new();
    desc.append("Live reading for ");
    desc.append(title);
    let mut line: String = String::new();
    line.append(bar);
    line.append(" ");
    line.append(value_text);
    line.append("  [");
    line.append(state);
    line.append("]");
    let mut b: NodeBuilder = NodeBuilder::new();
    b.heading(3, title).ai_action("read_gauge").ai_param("metric", title).ai_description(desc.as_str());
    assert(b@.len() == 1);
    assert(b@[0].kind == KindModel::Heading { level: 3, text: title@ });
    assert(b@[0].meta.ai_params =~= seq![("metric"@, title@)]);
    assert(b@[0].meta.ai_description == Some("Live reading for "@ + title@));
    assert(b@[0].meta == ai_meta("read_gauge"@, seq![("metric"@, title@)], Some("Live reading for "@ + title@)));
    b.text(line.as_str()).ai_action("read_gauge").ai_param("metric", title).ai_param("value", value_text).ai_param(
        "state",
        state,
    );
    assert(b@.len() == 2);
    assert(b@[1].kind == KindModel::Text { content: gauge_line(bar@, value_text@, alarm) });
    assert(b@[1].meta.ai_params =~= seq![("metric"@, title@), ("value"@, value_text@), ("state"@, state_text(alarm))]);
    assert(b@[1].meta == ai_meta("read_gauge"@, seq![("metric"@, title@), ("value"@, value_text@), ("state"@, state_text(alarm))], None));
    let t: UITree<()> = UITree::from_builder(b);
    assert(t@ =~~= gauge_widget_model(title@, bar@, value_text@, alarm));
    t
}

/// The column headers of the gauge dashboard.
pub open spec fn dashboard_headers() -> Seq<Seq<char>> {
    seq!["Gauge"@, "Value"@, "Fill"@, "State"@, "Bar"@]
}

/// One dashboard row: name, formatted value, formatted fill, badge, bar.
pub open spec fn gauge_row_model(
    name: Seq<char>,
    value_text: Seq<char>,
    fill_text: Seq<char>,
    alarm: bool,
    bar: Seq<char>,
) -> Seq<Seq<char>> {
    seq![name, value_text, fill_text, state_text(alarm), bar]
}

/// Builds one dashboard row from its formatted parts and the alarm flag.
pub fn gauge_row(name: &str, value_text: &str, fill_text: &str, alarm: bool, bar: &str) -> (row: Vec<String>)
    ensures
        row@.map_values(|c: String| c@) == gauge_row_model(name@, value_text@, fill_text@, alarm, bar@),
{
    let mut row: Vec<String> = Vec::new();
    row.push(name.to_string());
    row.push(value_text.to_string());
    row.push(fill_text.to_string());
    row.push(gauge_state(alarm).to_string());
    row.push(bar.to_string());
    assert(row@.map_values(|c: String| c@) =~= gauge_row_model(name@, value_text@, fill_text@, alarm, bar@));
    row
}

/// The field of a gauge that the dashboard column with header `header`
/// shows.
pub open spec fn dashboard_field(
    header: Seq<char>,
    name: Seq<char>,
    value_text: Seq<char>,
    fill_text: Seq<char>,
    alarm: bool,
    bar: Seq<char>,
) -> Seq<char> {
    if header == "Gauge"@ {
        name
    } else if header == "Value"@ {
        value_text
    } else if header == "Fill"@ {
        fill_text
    } else if header == "State"@ {
        state_text(alarm)
    } else {
        bar
    }
}

/// Law: every cell of a dashboard row sits under its header: the row has one
/// cell per header, and the cell in column `i` is the gauge field that
/// header `i` names (name, value, fill, state, bar).
pub proof fn law_gauge_row_matches_headers(
    name: Seq<char>,
    value_text: Seq<char>,
    fill_text: Seq<char>,
    alarm: bool,
    bar: Seq<char>,
)
    ensures
        gauge_row_model(name, value_text, fill_text, alarm, bar).len() == dashboard_headers().len(),
        forall|i: int|
            0 <= i < dashboard_headers().len() ==> #[trigger] gauge_row_model(name, value_text, fill_text, alarm, bar)[i]
                == dashboard_field(dashboard_headers()[i], name, value_text, fill_text, alarm, bar),
{
    reveal_strlit("Gauge");
    reveal_strlit("Value");
    reveal_strlit("Fill");
    reveal_strlit("State");
    reveal_strlit("Bar");
    assert("Value"@[0] != "Gauge"@[0]);
    assert("Fill"@[0] != "Gauge"@[0] && "Fill"@[0] != "Value"@[0]);
    assert("State"@[0] != "Gauge"@[0] && "State"@[0] != "Value"@[0] && "State"@[0] != "Fill"@[0]);
}

/// The tree of a gauge dashboard: a level-2 heading tagged
/// `read_dashboard`, then a data grid of the rows with the dashboard headers
/// and class `gauge-dashboard`.
pub open spec fn gauge_dashboard_model(title: Seq<char>, rows: Seq<Seq<Seq<char>>>) -> Seq<NodeModel> {
    seq![
        node(KindModel::Heading { level: 2, text: title }, ai_meta("read_dashboard"@, seq![], None)),
        node(
            KindModel::DataGrid { headers: dashboard_headers(), rows },
            MetaModel { class: Some("gauge-dashboard"@), ..empty_meta() },
        ),
    ]
}

/// Builds a dashboard tree of several gauges laid out as a data grid.
pub fn gauge_dashboard_tree(title: &str, rows: Vec<Vec<String>>) -> (t: UITree<()>)
    ensures
        t@ == gauge_dashboard_model(
            title@,
            rows@.map_values(|row: Vec<String>| row@.map_values(|c: String| c@)),
        ),
{
    let ghost rv: Seq<Seq<Seq<char>>> = rows@.map_values(|row: Vec<String>| row@.map_values(|c: String| c@));
    let mut b: NodeBuilder = NodeBuilder::new();
    b.heading(2, title).ai_action("read_dashboard");
    assert(b@[0].meta =~~= ai_meta("read_dashboard"@, seq![], None));
    let headers: [&str; 5] = ["Gauge", "Value", "Fill", "State", "Bar"];
    let hs: &[&str] = &headers;
    assert(hs@.map_values(|h: &str| h@) =~= dashboard_headers());
    b.data_grid(hs, rows).class("gauge-dashboard");
    assert(b@[1].kind =~~= KindModel::DataGrid { headers: dashboard_headers(), rows: rv });
    let t: UITree<()> = UITree::from_builder(b);
    assert(t@ =~~= gauge_dashboard_model(title@, rv));
    t
}

/// The tree of a diagnostic chart: a level-3 heading tagged `read_chart`,
/// then the chart body as one monospaced text node.
pub open spec fn chart_model(title: Seq<char>, body: Seq<char>) -> Seq<NodeModel> {
    seq![
        node(
            KindModel::Heading { level: 3, text: title },
            ai_meta("read_chart"@, seq![("chart"@, title)], Some("Diagnostic shot chart: "@ + title)),
        ),
        node(KindModel::Text { content: body }, empty_meta()),
    ]
}

/// Builds the chart tree around an already laid-out chart body.
pub fn chart_tree(title: &str, body: &str) -> (t: UITree<()>)
    ensures
        t@ == chart_model(title@, body@),
{
    let mut desc: String = String::new();
    desc.append("Diagnostic shot chart: ");
    desc.append(title);
    let mut b: NodeBuilder = NodeBuilder::new();
    b.heading(3, title).ai_action("read_chart").ai_param("chart", title).ai_description(desc.as_str());
    assert(b@[0].meta =~~= ai_meta("read_chart"@, seq![("chart"@, title@)], Some("Diagnostic shot chart: "@ + title@)));
    b.text(body);
    let t: UITree<()> = UITree::from_builder(b);
    assert(t@ =~~= chart_model(title@, body@));
    t
}

/// Renders a widget tree to a self-contained HTML page: a copy of the tree
/// is stamped with ids, then rendered and wrapped.
pub fn to_html(ui: &UITree<()>) -> (page: String)
    requires
        tree_count(ui@) <= usize::MAX,
    ensures
        page@ == html_page(tree_html(tree_with_ids(ui@, 0))),
{
    let mut copy: UITree<()> = ui.duplicate();
    copy.assign_ids();
    let state: State = query_state(&copy);
    let report: Report = render(&copy, &state);
    crate::ui::to_html(&report)
}

/// Law: a gauge readout shows what it was given where it belongs: the
/// heading is the title; the reading line starts with the bar, then the
/// value, then the badge in brackets, and the badge is `ALARM` exactly when
/// the reading is in alarm (`OK` otherwise); the line's metadata names the
/// metric, the value and the badge under their own keys.
pub proof fn law_gauge_widget_fields(title: Seq<char>, bar: Seq<char>, value_text: Seq<char>, alarm: bool)
    ensures
        ({
            let m = gauge_widget_model(title, bar, value_text, alarm);
            &&& m.len() == 2
            &&& m[0].kind == KindModel::Heading { level: 3, text: title }
            &&& m[1].kind == KindModel::Text {
                content: bar + " "@ + value_text + "  ["@ + state_text(alarm) + "]"@,
            }
            &&& m[1].meta.ai_params == seq![("metric"@, title), ("value"@, value_text), ("state"@, state_text(alarm))]
        }),
        (state_text(alarm) == "ALARM"@) == alarm,
        (state_text(alarm) == "OK"@) == !alarm,
{
    reveal_strlit("ALARM");
    reveal_strlit("OK");
    assert("ALARM"@ != "OK"@) by {
        assert("ALARM"@.len() != "OK"@.len());
    }
}

/// Law: a chart shows its title as the heading and its body, unchanged, as
/// the one text node after it; its text is the title line then the body
/// line.
pub proof fn law_chart_fields(title: Seq<char>, body: Seq<char>)
    ensures
        chart_model(title, body).len() == 2,
        (chart_model(title, body)[0].kind == KindModel::Heading { level: 3, text: title }),
        (chart_model(title, body)[1].kind == KindModel::Text { content: body }),
        tree_text(chart_model(title, body)) == title.push('\n') + body.push('\n'),
{
    let m: Seq<NodeModel> = chart_model(title, body);
    assert(m.drop_last().drop_last() =~= Seq::<NodeModel>::empty());
    assert(tree_text(m.drop_last().drop_last()) == Seq::<char>::empty());
    assert(m.drop_last().last() == m[0] && m.last() == m[1]);
    assert(node_text(m[0]) == title.push('\n'));
    assert(node_text(m[1]) == body.push('\n'));
    assert(tree_text(m.drop_last()) =~= title.push('\n'));
    assert(tree_text(m) == tree_text(m.drop_last()) + node_text(m[1]));
}

} // verus!
